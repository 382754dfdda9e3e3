//! Case-insensitive identifier for authorization, with its credential kind.

use vstd::prelude::*;

use crate::codec::dec_req_str;
use crate::codec::lemma_get_req;
use crate::codec::lemma_skip_req;
use crate::codec::req_field;
use crate::enums::lemma_id_token_kind_round_trip;
use crate::enums::IdTokenEnumType;
use crate::error::CodecError;
use crate::error::ErrorV;
use crate::json::kind_of;
use crate::json::push_field;
use crate::json::Json;
use crate::json::JsonField;
use crate::json::JsonV;

verus! {

/// An identity token: the identifier text and the kind of credential it is.
#[derive(Debug, Clone, PartialEq)]
pub struct IdTokenType {
    pub id_token: String,
    pub kind: IdTokenEnumType,
}

/// The mathematical model of an [`IdTokenType`].
pub struct IdTokenV {
    pub id_token: Seq<char>,
    pub kind: IdTokenEnumType,
}

impl View for IdTokenType {
    type V = IdTokenV;

    open spec fn view(&self) -> IdTokenV {
        IdTokenV { id_token: self.id_token@, kind: self.kind }
    }
}

impl Default for IdTokenType {
    /// The all-default record.
    fn default() -> (r: Self)
        ensures
            r@.id_token == Seq::<char>::empty(),
            r@.kind == IdTokenEnumType::Central,
    {
        IdTokenType { id_token: String::new(), kind: IdTokenEnumType::Central }
    }
}

impl IdTokenType {
    /// The members of the encoded record: identifier under `idToken`, the
    /// credential kind's tag under `type`.
    pub open spec fn spec_members(v: IdTokenV) -> Seq<(Seq<char>, JsonV)> {
        req_field("idToken"@, JsonV::Str(v.id_token)) + (req_field(
            "type"@,
            JsonV::Str(v.kind.spec_tag()),
        ) + Seq::<(Seq<char>, JsonV)>::empty())
    }

    /// The encoded tree of a model value.
    pub open spec fn spec_to_json(v: IdTokenV) -> JsonV {
        JsonV::Obj(Self::spec_members(v))
    }

    /// The decoded model value of a tree, or the first failure.
    pub open spec fn spec_from_json(j: JsonV) -> Result<IdTokenV, ErrorV> {
        if !(j is Obj) {
            Err(
                ErrorV::TypeMismatch {
                    field: Seq::<char>::empty(),
                    expected: "object"@,
                    found: kind_of(j),
                },
            )
        } else {
            match dec_req_str(j, "idToken"@) {
                Err(e) => Err(e),
                Ok(idt) => match dec_req_str(j, "type"@) {
                    Err(e) => Err(e),
                    Ok(tag) => match IdTokenEnumType::spec_of_tag(tag) {
                        Option::None => Err(
                            ErrorV::UnknownEnumerationValue {
                                enum_name: "IdTokenEnumType"@,
                                received_tag: tag,
                            },
                        ),
                        Option::Some(kind) => Ok(IdTokenV { id_token: idt, kind }),
                    },
                },
            }
        }
    }

    /// Encode: one map-shaped record.
    pub fn to_json(&self) -> (r: Json)
        ensures
            r@ == Self::spec_to_json(self@),
    {
        let mut fields: Vec<JsonField> = Vec::new();
        push_field(&mut fields, "idToken", Json::Str(self.id_token.clone()));
        push_field(&mut fields, "type", Json::Str(self.kind.tag().to_owned()));
        let r = Json::Obj(fields);
        proof {
            assert(crate::json::fields_view(fields@) =~= Self::spec_members(self@));
        }
        r
    }

    /// Decode, ignoring unknown keys; fails exactly as the model decoder says.
    pub fn from_json(j: &Json) -> (r: Result<Self, CodecError>)
        ensures
            match r {
                Ok(v) => Self::spec_from_json(j@) == Ok::<IdTokenV, ErrorV>(v@),
                Err(e) => Self::spec_from_json(j@) == Err::<IdTokenV, ErrorV>(e@),
            },
    {
        match j {
            Json::Obj(_) => {},
            _ => {
                return Err(
                    CodecError::TypeMismatch {
                        field: String::new(),
                        expected: "object".to_owned(),
                        found: j.kind().to_owned(),
                    },
                );
            },
        }
        let id_token = match j.get_req_str("idToken") {
            Ok(v) => v,
            Err(e) => return Err(e),
        };
        let tag = match j.get_req_str("type") {
            Ok(v) => v,
            Err(e) => return Err(e),
        };
        let kind = match IdTokenEnumType::from_tag(tag.as_str()) {
            Option::Some(k) => k,
            Option::None => {
                return Err(
                    CodecError::UnknownEnumerationValue {
                        enum_name: "IdTokenEnumType".to_owned(),
                        received_tag: tag,
                    },
                );
            },
        };
        Ok(IdTokenType { id_token, kind })
    }
}

/// Decoding an encoded record yields the record back.
pub proof fn lemma_id_token_round_trip(v: IdTokenV)
    ensures
        IdTokenType::spec_from_json(IdTokenType::spec_to_json(v)) == Ok::<IdTokenV, ErrorV>(v),
{
    reveal_strlit("idToken");
    reveal_strlit("type");
    assert("idToken"@.len() == 7);
    assert("type"@.len() == 4);
    let tail = req_field("type"@, JsonV::Str(v.kind.spec_tag())) + Seq::<(
        Seq<char>,
        JsonV,
    )>::empty();
    lemma_get_req("idToken"@, JsonV::Str(v.id_token), tail);
    lemma_skip_req("idToken"@, JsonV::Str(v.id_token), tail, "type"@);
    lemma_get_req("type"@, JsonV::Str(v.kind.spec_tag()), Seq::<(Seq<char>, JsonV)>::empty());
    lemma_id_token_kind_round_trip(v.kind);
}

} // verus!
