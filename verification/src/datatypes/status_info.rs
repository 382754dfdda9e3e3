//! Element providing more information about a status.

use vstd::prelude::*;

use crate::codec::dec_opt_str;
use crate::codec::dec_req_str;
use crate::error::CodecError;
use crate::error::ErrorV;
use crate::json::kind_of;
use crate::json::push_field;
use crate::json::spec_get_obj;
use crate::json::Json;
use crate::json::JsonField;
use crate::json::JsonV;

verus! {

/// More information about a status: a machine-readable reason code and free
/// text.
#[derive(Debug, Clone, PartialEq)]
pub struct StatusInfoType {
    pub reason_code: String,
    pub additional_info: Option<String>,
}

/// The mathematical model of a [`StatusInfoType`].
pub struct StatusInfoV {
    pub reason_code: Seq<char>,
    pub additional_info: Option<Seq<char>>,
}

impl View for StatusInfoType {
    type V = StatusInfoV;

    open spec fn view(&self) -> StatusInfoV {
        StatusInfoV {
            reason_code: self.reason_code@,
            additional_info: match self.additional_info {
                Option::Some(s) => Option::Some(s@),
                Option::None => Option::None,
            },
        }
    }
}

impl Default for StatusInfoType {
    /// The all-default record: empty reason code, no additional info.
    fn default() -> (r: Self)
        ensures
            r@.reason_code == Seq::<char>::empty(),
            r@.additional_info is None,
    {
        StatusInfoType { reason_code: String::new(), additional_info: Option::None }
    }
}

impl StatusInfoType {
    /// The encoded tree of a model value.
    pub open spec fn spec_to_json(v: StatusInfoV) -> JsonV {
        let fs = Seq::<(Seq<char>, JsonV)>::empty().push(
            ("reasonCode"@, JsonV::Str(v.reason_code)),
        );
        let fs = if v.additional_info is Some {
            fs.push(("additionalInfo"@, JsonV::Str(v.additional_info->0)))
        } else {
            fs
        };
        JsonV::Obj(fs)
    }

    /// The decoded model value of a tree, or the first failure.
    pub open spec fn spec_from_json(j: JsonV) -> Result<StatusInfoV, ErrorV> {
        if !(j is Obj) {
            Err(
                ErrorV::TypeMismatch {
                    field: Seq::<char>::empty(),
                    expected: "object"@,
                    found: kind_of(j),
                },
            )
        } else {
            match dec_req_str(j, "reasonCode"@) {
                Err(e) => Err(e),
                Ok(rc) => match dec_opt_str(j, "additionalInfo"@) {
                    Err(e) => Err(e),
                    Ok(ai) => Ok(StatusInfoV { reason_code: rc, additional_info: ai }),
                },
            }
        }
    }

    /// Encode: one map-shaped record, absent optional fields omitted.
    pub fn to_json(&self) -> (r: Json)
        ensures
            r@ == Self::spec_to_json(self@),
    {
        let mut fields: Vec<JsonField> = Vec::new();
        push_field(&mut fields, "reasonCode", Json::Str(self.reason_code.clone()));
        match &self.additional_info {
            Option::Some(ai) => push_field(&mut fields, "additionalInfo", Json::Str(ai.clone())),
            Option::None => {},
        }
        Json::Obj(fields)
    }

    /// Decode, ignoring unknown keys; fails exactly as the model decoder says.
    pub fn from_json(j: &Json) -> (r: Result<Self, CodecError>)
        ensures
            match r {
                Ok(v) => Self::spec_from_json(j@) == Ok::<StatusInfoV, ErrorV>(v@),
                Err(e) => Self::spec_from_json(j@) == Err::<StatusInfoV, ErrorV>(e@),
            },
    {
        match j {
            Json::Obj(_) => {},
            _ => {
                return Err(
                    CodecError::TypeMismatch {
                        field: String::new(),
                        expected: "object".to_owned(),
                        found: j.kind().to_owned(),
                    },
                );
            },
        }
        let reason_code = match j.get_req_str("reasonCode") {
            Ok(v) => v,
            Err(e) => return Err(e),
        };
        let additional_info = match j.get_opt_str("additionalInfo") {
            Ok(v) => v,
            Err(e) => return Err(e),
        };
        Ok(StatusInfoType { reason_code, additional_info })
    }
}

/// Decoding an encoded record yields the record back, and the encoded tree
/// holds the optional key exactly when the optional field is present.
pub proof fn lemma_status_info_round_trip(v: StatusInfoV)
    ensures
        StatusInfoType::spec_from_json(StatusInfoType::spec_to_json(v)) == Ok::<
            StatusInfoV,
            ErrorV,
        >(v),
        spec_get_obj(StatusInfoType::spec_to_json(v), "additionalInfo"@) is Some
            <==> v.additional_info is Some,
{
    reveal_strlit("reasonCode");
    reveal_strlit("additionalInfo");
    assert("reasonCode"@.len() == 10);
    assert("additionalInfo"@.len() == 14);
    assert("reasonCode"@ != "additionalInfo"@);
    let j = StatusInfoType::spec_to_json(v);
    let f0 = ("reasonCode"@, JsonV::Str(v.reason_code));
    if v.additional_info is Some {
        let f1 = ("additionalInfo"@, JsonV::Str(v.additional_info->0));
        let fs = Seq::<(Seq<char>, JsonV)>::empty().push(f0).push(f1);
        assert(j == JsonV::Obj(fs));
        assert(fs.len() == 2 && fs[0] == f0 && fs[1] == f1);
        crate::json::lemma_spec_get_found(fs, "reasonCode"@, 0);
        crate::json::lemma_spec_get_found(fs, "additionalInfo"@, 1);
    } else {
        let fs = Seq::<(Seq<char>, JsonV)>::empty().push(f0);
        assert(j == JsonV::Obj(fs));
        assert(fs.len() == 1 && fs[0] == f0);
        crate::json::lemma_spec_get_found(fs, "reasonCode"@, 0);
        crate::json::lemma_spec_get_absent(fs, "additionalInfo"@);
    }
}

} // verus!
