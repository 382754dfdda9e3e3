//! Formatted message content with an optional language tag.

use vstd::prelude::*;

use crate::codec::dec_opt_str;
use crate::codec::dec_req_str;
use crate::codec::lemma_get_opt;
use crate::codec::lemma_get_req;
use crate::codec::lemma_skip_opt;
use crate::codec::lemma_skip_req;
use crate::codec::opt_field;
use crate::codec::req_field;
use crate::enums::lemma_message_format_round_trip;
use crate::enums::MessageFormatEnumType;
use crate::error::CodecError;
use crate::error::ErrorV;
use crate::json::kind_of;
use crate::json::push_field;
use crate::json::Json;
use crate::json::JsonField;
use crate::json::JsonV;

verus! {

/// A message to show or play: its format, optional language, and content.
#[derive(Debug, Clone, PartialEq)]
pub struct MessageContentType {
    pub format: MessageFormatEnumType,
    pub language: Option<String>,
    pub content: String,
}

/// The mathematical model of a [`MessageContentType`].
pub struct MessageContentV {
    pub format: MessageFormatEnumType,
    pub language: Option<Seq<char>>,
    pub content: Seq<char>,
}

impl View for MessageContentType {
    type V = MessageContentV;

    open spec fn view(&self) -> MessageContentV {
        MessageContentV {
            format: self.format,
            language: match self.language {
                Option::Some(s) => Option::Some(s@),
                Option::None => Option::None,
            },
            content: self.content@,
        }
    }
}

impl Default for MessageContentType {
    /// The all-default record.
    fn default() -> (r: Self)
        ensures
            r@.format == MessageFormatEnumType::ASCII,
            r@.language is None,
            r@.content == Seq::<char>::empty(),
    {
        MessageContentType {
            format: MessageFormatEnumType::ASCII,
            language: Option::None,
            content: String::new(),
        }
    }
}

impl MessageContentType {
    /// The members of the encoded record, in writing order.
    pub open spec fn spec_members(v: MessageContentV) -> Seq<(Seq<char>, JsonV)> {
        req_field("format"@, JsonV::Str(v.format.spec_tag())) + (opt_field(
            "language"@,
            match v.language {
                Option::Some(s) => Option::Some(JsonV::Str(s)),
                Option::None => Option::None,
            },
        ) + (req_field("content"@, JsonV::Str(v.content)) + Seq::<(Seq<char>, JsonV)>::empty()))
    }

    /// The encoded tree of a model value.
    pub open spec fn spec_to_json(v: MessageContentV) -> JsonV {
        JsonV::Obj(Self::spec_members(v))
    }

    /// The decoded model value of a tree, or the first failure.
    pub open spec fn spec_from_json(j: JsonV) -> Result<MessageContentV, ErrorV> {
        if !(j is Obj) {
            Err(
                ErrorV::TypeMismatch {
                    field: Seq::<char>::empty(),
                    expected: "object"@,
                    found: kind_of(j),
                },
            )
        } else {
            match dec_req_str(j, "format"@) {
                Err(e) => Err(e),
                Ok(tag) => match MessageFormatEnumType::spec_of_tag(tag) {
                    Option::None => Err(
                        ErrorV::UnknownEnumerationValue {
                            enum_name: "MessageFormatEnumType"@,
                            received_tag: tag,
                        },
                    ),
                    Option::Some(format) => match dec_opt_str(j, "language"@) {
                        Err(e) => Err(e),
                        Ok(language) => match dec_req_str(j, "content"@) {
                            Err(e) => Err(e),
                            Ok(content) => Ok(MessageContentV { format, language, content }),
                        },
                    },
                },
            }
        }
    }

    /// Encode: one map-shaped record, absent optional fields omitted.
    pub fn to_json(&self) -> (r: Json)
        ensures
            r@ == Self::spec_to_json(self@),
    {
        let mut fields: Vec<JsonField> = Vec::new();
        push_field(&mut fields, "format", Json::Str(self.format.tag().to_owned()));
        match &self.language {
            Option::Some(l) => push_field(&mut fields, "language", Json::Str(l.clone())),
            Option::None => {},
        }
        push_field(&mut fields, "content", Json::Str(self.content.clone()));
        let r = Json::Obj(fields);
        proof {
            assert(crate::json::fields_view(fields@) =~= Self::spec_members(self@));
        }
        r
    }

    /// Decode, ignoring unknown keys; fails exactly as the model decoder says.
    pub fn from_json(j: &Json) -> (r: Result<Self, CodecError>)
        ensures
            match r {
                Ok(v) => Self::spec_from_json(j@) == Ok::<MessageContentV, ErrorV>(v@),
                Err(e) => Self::spec_from_json(j@) == Err::<MessageContentV, ErrorV>(e@),
            },
    {
        match j {
            Json::Obj(_) => {},
            _ => {
                return Err(
                    CodecError::TypeMismatch {
                        field: String::new(),
                        expected: "object".to_owned(),
                        found: j.kind().to_owned(),
                    },
                );
            },
        }
        let tag = match j.get_req_str("format") {
            Ok(v) => v,
            Err(e) => return Err(e),
        };
        let format = match MessageFormatEnumType::from_tag(tag.as_str()) {
            Option::Some(f) => f,
            Option::None => {
                return Err(
                    CodecError::UnknownEnumerationValue {
                        enum_name: "MessageFormatEnumType".to_owned(),
                        received_tag: tag,
                    },
                );
            },
        };
        let language = match j.get_opt_str("language") {
            Ok(v) => v,
            Err(e) => return Err(e),
        };
        let content = match j.get_req_str("content") {
            Ok(v) => v,
            Err(e) => return Err(e),
        };
        Ok(MessageContentType { format, language, content })
    }
}

/// Decoding an encoded record yields the record back.
pub proof fn lemma_message_content_round_trip(v: MessageContentV)
    ensures
        MessageContentType::spec_from_json(MessageContentType::spec_to_json(v)) == Ok::<
            MessageContentV,
            ErrorV,
        >(v),
{
    reveal_strlit("format");
    reveal_strlit("language");
    reveal_strlit("content");
    assert("format"@.len() == 6 && "format"@[0] == 'f');
    assert("language"@.len() == 8 && "language"@[0] == 'l');
    assert("content"@.len() == 7 && "content"@[0] == 'c');
    let f_format = JsonV::Str(v.format.spec_tag());
    let o_language = match v.language {
        Option::Some(s) => Option::Some(JsonV::Str(s)),
        Option::None => Option::<JsonV>::None,
    };
    let f_content = JsonV::Str(v.content);
    let t2 = req_field("content"@, f_content) + Seq::<(Seq<char>, JsonV)>::empty();
    let t1 = opt_field("language"@, o_language) + t2;
    lemma_get_req("format"@, f_format, t1);
    lemma_message_format_round_trip(v.format);
    lemma_skip_req("format"@, f_format, t1, "language"@);
    lemma_get_opt("language"@, o_language, t2);
    lemma_skip_req("content"@, f_content, Seq::<(Seq<char>, JsonV)>::empty(), "language"@);
    lemma_skip_req("format"@, f_format, t1, "content"@);
    lemma_skip_opt("language"@, o_language, t2, "content"@);
    lemma_get_req("content"@, f_content, Seq::<(Seq<char>, JsonV)>::empty());
}

} // verus!
