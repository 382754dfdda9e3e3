//! One sampled measurement value.

use vstd::prelude::*;

use crate::codec::dec_req_decimal;
use crate::codec::lemma_get_req;
use crate::codec::req_field;
use crate::decimal::Decimal;
use crate::error::CodecError;
use crate::error::ErrorV;
use crate::json::kind_of;
use crate::json::push_field;
use crate::json::Json;
use crate::json::JsonField;
use crate::json::JsonV;

verus! {

/// A single sampled value, carried as an exact decimal.
#[derive(Debug, Clone, PartialEq)]
pub struct SampledValueType {
    pub value: Decimal,
}

/// The mathematical model of a [`SampledValueType`].
pub struct SampledValueV {
    pub value: Decimal,
}

impl View for SampledValueType {
    type V = SampledValueV;

    open spec fn view(&self) -> SampledValueV {
        SampledValueV { value: self.value }
    }
}

impl Default for SampledValueType {
    /// The all-default record: a zero reading.
    fn default() -> (r: Self)
        ensures
            r@.value == (Decimal { mantissa: 0, scale: 0 }),
    {
        SampledValueType { value: Decimal { mantissa: 0, scale: 0 } }
    }
}

impl SampledValueType {
    /// The members of the encoded record.
    pub open spec fn spec_members(v: SampledValueV) -> Seq<(Seq<char>, JsonV)> {
        req_field("value"@, JsonV::Num(v.value)) + Seq::<(Seq<char>, JsonV)>::empty()
    }

    /// The encoded tree of a model value.
    pub open spec fn spec_to_json(v: SampledValueV) -> JsonV {
        JsonV::Obj(Self::spec_members(v))
    }

    /// The decoded model value of a tree, or the first failure.
    pub open spec fn spec_from_json(j: JsonV) -> Result<SampledValueV, ErrorV> {
        if !(j is Obj) {
            Err(
                ErrorV::TypeMismatch {
                    field: Seq::<char>::empty(),
                    expected: "object"@,
                    found: kind_of(j),
                },
            )
        } else {
            let r_val = dec_req_decimal(j, "value"@);
            if r_val is Err {
                Err(r_val->Err_0)
            } else {
                Ok(SampledValueV { value: r_val->Ok_0 })
            }
        }
    }

    /// Encode: one map-shaped record.
    pub fn to_json(&self) -> (r: Json)
        ensures
            r@ == Self::spec_to_json(self@),
    {
        let mut fields: Vec<JsonField> = Vec::new();
        push_field(&mut fields, "value", Json::Num(self.value));
        let r = Json::Obj(fields);
        proof {
            assert(crate::json::fields_view(fields@) =~= Self::spec_members(self@));
        }
        r
    }

    /// Decode, ignoring unknown keys; fails exactly as the model decoder says.
    pub fn from_json(j: &Json) -> (r: Result<Self, CodecError>)
        ensures
            match r {
                Ok(v) => Self::spec_from_json(j@) == Ok::<SampledValueV, ErrorV>(v@),
                Err(e) => Self::spec_from_json(j@) == Err::<SampledValueV, ErrorV>(e@),
            },
    {
        match j {
            Json::Obj(_) => {},
            _ => {
                return Err(
                    CodecError::TypeMismatch {
                        field: String::new(),
                        expected: "object".to_owned(),
                        found: j.kind().to_owned(),
                    },
                );
            },
        }
        let value = match j.get_req_decimal("value") {
            Ok(v) => v,
            Err(e) => return Err(e),
        };
        Ok(SampledValueType { value })
    }
}

/// Decoding an encoded record yields the record back.
pub proof fn lemma_sampled_value_round_trip(v: SampledValueV)
    ensures
        SampledValueType::spec_from_json(SampledValueType::spec_to_json(v)) == Ok::<
            SampledValueV,
            ErrorV,
        >(v),
{
    reveal_strlit("value");
    lemma_get_req("value"@, JsonV::Num(v.value), Seq::<(Seq<char>, JsonV)>::empty());
}

} // verus!
