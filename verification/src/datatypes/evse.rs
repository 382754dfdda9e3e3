//! An electric vehicle supply equipment: a charging outlet by numeric id.

use vstd::prelude::*;

use crate::codec::dec_opt_int;
use crate::codec::dec_req_int;
use crate::codec::lemma_get_opt;
use crate::codec::lemma_get_req;
use crate::codec::lemma_skip_req;
use crate::codec::opt_field;
use crate::codec::req_field;
use crate::decimal::Decimal;
use crate::error::CodecError;
use crate::error::ErrorV;
use crate::json::kind_of;
use crate::json::push_field;
use crate::json::Json;
use crate::json::JsonField;
use crate::json::JsonV;

verus! {

/// A charging outlet, with an optional connector within it.
#[derive(Debug, Clone, PartialEq)]
pub struct EVSEType {
    pub id: i64,
    pub connector_id: Option<i64>,
}

/// The mathematical model of an [`EVSEType`].
pub struct EVSEV {
    pub id: int,
    pub connector_id: Option<int>,
}

impl View for EVSEType {
    type V = EVSEV;

    open spec fn view(&self) -> EVSEV {
        EVSEV {
            id: self.id as int,
            connector_id: match self.connector_id {
                Option::Some(c) => Option::Some(c as int),
                Option::None => Option::None,
            },
        }
    }
}

impl Default for EVSEType {
    /// The all-default record.
    fn default() -> (r: Self)
        ensures
            r@.id == 0,
            r@.connector_id is None,
    {
        EVSEType { id: 0, connector_id: Option::None }
    }
}

impl EVSEV {
    /// A well-formed model: ids fit in 64 bits.
    pub open spec fn wf(self) -> bool {
        &&& i64::MIN <= self.id <= i64::MAX
        &&& self.connector_id matches Option::Some(c) ==> i64::MIN <= c <= i64::MAX
    }
}

impl EVSEType {
    /// The tree an optional connector id contributes.
    pub open spec fn spec_connector_val(o: Option<int>) -> Option<JsonV> {
        match o {
            Option::Some(c) => Option::Some(JsonV::Num(Decimal { mantissa: c as i64, scale: 0 })),
            Option::None => Option::None,
        }
    }

    /// The members of the encoded record, in writing order.
    pub open spec fn spec_members(v: EVSEV) -> Seq<(Seq<char>, JsonV)> {
        let t1 = opt_field("connectorId"@, Self::spec_connector_val(v.connector_id)) + Seq::<(
            Seq<char>,
            JsonV,
        )>::empty();
        req_field("id"@, JsonV::Num(Decimal { mantissa: v.id as i64, scale: 0 })) + t1
    }

    /// The encoded tree of a model value.
    pub open spec fn spec_to_json(v: EVSEV) -> JsonV {
        JsonV::Obj(Self::spec_members(v))
    }

    /// The decoded model value of a tree, or the first failure.
    pub open spec fn spec_from_json(j: JsonV) -> Result<EVSEV, ErrorV> {
        if !(j is Obj) {
            Err(
                ErrorV::TypeMismatch {
                    field: Seq::<char>::empty(),
                    expected: "object"@,
                    found: kind_of(j),
                },
            )
        } else {
            let r_id = dec_req_int(j, "id"@, i64::MIN as int, i64::MAX as int);
            let r_conn = dec_opt_int(j, "connectorId"@, i64::MIN as int, i64::MAX as int);
            if r_id is Err {
                Err(r_id->Err_0)
            } else if r_conn is Err {
                Err(r_conn->Err_0)
            } else {
                Ok(EVSEV { id: r_id->Ok_0, connector_id: r_conn->Ok_0 })
            }
        }
    }

    /// Encode: one map-shaped record, absent optional fields omitted.
    pub fn to_json(&self) -> (r: Json)
        ensures
            r@ == Self::spec_to_json(self@),
    {
        let mut fields: Vec<JsonField> = Vec::new();
        push_field(&mut fields, "id", Json::Num(Decimal { mantissa: self.id, scale: 0 }));
        match &self.connector_id {
            Option::Some(c) => push_field(
                &mut fields,
                "connectorId",
                Json::Num(Decimal { mantissa: *c, scale: 0 }),
            ),
            Option::None => {},
        }
        let r = Json::Obj(fields);
        proof {
            assert(crate::json::fields_view(fields@) =~= Self::spec_members(self@));
        }
        r
    }

    /// Decode, ignoring unknown keys; fails exactly as the model decoder says.
    pub fn from_json(j: &Json) -> (r: Result<Self, CodecError>)
        ensures
            match r {
                Ok(v) => Self::spec_from_json(j@) == Ok::<EVSEV, ErrorV>(v@),
                Err(e) => Self::spec_from_json(j@) == Err::<EVSEV, ErrorV>(e@),
            },
    {
        match j {
            Json::Obj(_) => {},
            _ => {
                return Err(
                    CodecError::TypeMismatch {
                        field: String::new(),
                        expected: "object".to_owned(),
                        found: j.kind().to_owned(),
                    },
                );
            },
        }
        let id = match j.get_req_i64("id") {
            Ok(v) => v,
            Err(e) => return Err(e),
        };
        let connector_id = match j.get_opt_i64("connectorId") {
            Ok(v) => v,
            Err(e) => return Err(e),
        };
        Ok(EVSEType { id, connector_id })
    }
}

/// Decoding an encoded record yields the record back.
pub proof fn lemma_evse_round_trip(v: EVSEV)
    requires
        v.wf(),
    ensures
        EVSEType::spec_from_json(EVSEType::spec_to_json(v)) == Ok::<EVSEV, ErrorV>(v),
{
    reveal_strlit("id");
    reveal_strlit("connectorId");
    assert("id"@.len() == 2);
    assert("connectorId"@.len() == 11);
    let f_id = JsonV::Num(Decimal { mantissa: v.id as i64, scale: 0 });
    let o_conn = EVSEType::spec_connector_val(v.connector_id);
    let t1 = opt_field("connectorId"@, o_conn) + Seq::<(Seq<char>, JsonV)>::empty();
    lemma_get_req("id"@, f_id, t1);
    lemma_skip_req("id"@, f_id, t1, "connectorId"@);
    lemma_get_opt("connectorId"@, o_conn, Seq::<(Seq<char>, JsonV)>::empty());
}

} // verus!
