//! The transaction a transaction event speaks about.

use vstd::prelude::*;

use crate::codec::dec_opt_int;
use crate::codec::dec_req_str;
use crate::codec::lemma_get_opt;
use crate::codec::lemma_get_req;
use crate::codec::lemma_skip_opt;
use crate::codec::lemma_skip_req;
use crate::codec::opt_field;
use crate::codec::req_field;
use crate::decimal::Decimal;
use crate::error::CodecError;
use crate::error::ErrorV;
use crate::json::kind_of;
use crate::json::push_field;
use crate::json::Json;
use crate::json::JsonField;
use crate::json::JsonV;

verus! {

/// A transaction: its identifier and optional runtime details.
#[derive(Debug, Clone, PartialEq)]
pub struct TransactionType {
    pub transaction_id: String,
    pub time_spent_charging: Option<i32>,
    pub remote_start_id: Option<i32>,
}

/// The mathematical model of a [`TransactionType`].
pub struct TransactionV {
    pub transaction_id: Seq<char>,
    pub time_spent_charging: Option<int>,
    pub remote_start_id: Option<int>,
}

impl View for TransactionType {
    type V = TransactionV;

    open spec fn view(&self) -> TransactionV {
        TransactionV {
            transaction_id: self.transaction_id@,
            time_spent_charging: match self.time_spent_charging {
                Option::Some(t) => Option::Some(t as int),
                Option::None => Option::None,
            },
            remote_start_id: match self.remote_start_id {
                Option::Some(t) => Option::Some(t as int),
                Option::None => Option::None,
            },
        }
    }
}

impl Default for TransactionType {
    /// The all-default record.
    fn default() -> (r: Self)
        ensures
            r@.transaction_id == Seq::<char>::empty(),
            r@.time_spent_charging is None,
            r@.remote_start_id is None,
    {
        TransactionType {
            transaction_id: String::new(),
            time_spent_charging: Option::None,
            remote_start_id: Option::None,
        }
    }
}

impl TransactionV {
    /// A well-formed model: counters fit in 32 bits.
    pub open spec fn wf(self) -> bool {
        &&& self.time_spent_charging matches Option::Some(t) ==> i32::MIN <= t <= i32::MAX
        &&& self.remote_start_id matches Option::Some(t) ==> i32::MIN <= t <= i32::MAX
    }
}

impl TransactionType {
    /// The tree an optional 32-bit number contributes.
    pub open spec fn spec_int_val(o: Option<int>) -> Option<JsonV> {
        match o {
            Option::Some(n) => Option::Some(JsonV::Num(Decimal { mantissa: n as i64, scale: 0 })),
            Option::None => Option::None,
        }
    }

    /// The members of the encoded record, in writing order.
    pub open spec fn spec_members(v: TransactionV) -> Seq<(Seq<char>, JsonV)> {
        let t2 = opt_field("remoteStartId"@, Self::spec_int_val(v.remote_start_id)) + Seq::<(
            Seq<char>,
            JsonV,
        )>::empty();
        let t1 = opt_field("timeSpentCharging"@, Self::spec_int_val(v.time_spent_charging)) + t2;
        req_field("transactionId"@, JsonV::Str(v.transaction_id)) + t1
    }

    /// The encoded tree of a model value.
    pub open spec fn spec_to_json(v: TransactionV) -> JsonV {
        JsonV::Obj(Self::spec_members(v))
    }

    /// The decoded model value of a tree, or the first failure.
    pub open spec fn spec_from_json(j: JsonV) -> Result<TransactionV, ErrorV> {
        if !(j is Obj) {
            Err(
                ErrorV::TypeMismatch {
                    field: Seq::<char>::empty(),
                    expected: "object"@,
                    found: kind_of(j),
                },
            )
        } else {
            let r_id = dec_req_str(j, "transactionId"@);
            let r_time = dec_opt_int(j, "timeSpentCharging"@, i32::MIN as int, i32::MAX as int);
            let r_remote = dec_opt_int(j, "remoteStartId"@, i32::MIN as int, i32::MAX as int);
            if r_id is Err {
                Err(r_id->Err_0)
            } else if r_time is Err {
                Err(r_time->Err_0)
            } else if r_remote is Err {
                Err(r_remote->Err_0)
            } else {
                Ok(
                    TransactionV {
                        transaction_id: r_id->Ok_0,
                        time_spent_charging: r_time->Ok_0,
                        remote_start_id: r_remote->Ok_0,
                    },
                )
            }
        }
    }

    /// Encode: one map-shaped record, absent optional fields omitted.
    pub fn to_json(&self) -> (r: Json)
        ensures
            r@ == Self::spec_to_json(self@),
    {
        let mut fields: Vec<JsonField> = Vec::new();
        push_field(&mut fields, "transactionId", Json::Str(self.transaction_id.clone()));
        match &self.time_spent_charging {
            Option::Some(t) => push_field(
                &mut fields,
                "timeSpentCharging",
                Json::Num(Decimal { mantissa: *t as i64, scale: 0 }),
            ),
            Option::None => {},
        }
        match &self.remote_start_id {
            Option::Some(t) => push_field(
                &mut fields,
                "remoteStartId",
                Json::Num(Decimal { mantissa: *t as i64, scale: 0 }),
            ),
            Option::None => {},
        }
        let r = Json::Obj(fields);
        proof {
            assert(crate::json::fields_view(fields@) =~= Self::spec_members(self@));
        }
        r
    }

    /// Decode, ignoring unknown keys; fails exactly as the model decoder says.
    pub fn from_json(j: &Json) -> (r: Result<Self, CodecError>)
        ensures
            match r {
                Ok(v) => Self::spec_from_json(j@) == Ok::<TransactionV, ErrorV>(v@),
                Err(e) => Self::spec_from_json(j@) == Err::<TransactionV, ErrorV>(e@),
            },
    {
        match j {
            Json::Obj(_) => {},
            _ => {
                return Err(
                    CodecError::TypeMismatch {
                        field: String::new(),
                        expected: "object".to_owned(),
                        found: j.kind().to_owned(),
                    },
                );
            },
        }
        let transaction_id = match j.get_req_str("transactionId") {
            Ok(v) => v,
            Err(e) => return Err(e),
        };
        let time_spent_charging = match j.get_opt_i32("timeSpentCharging") {
            Ok(v) => v,
            Err(e) => return Err(e),
        };
        let remote_start_id = match j.get_opt_i32("remoteStartId") {
            Ok(v) => v,
            Err(e) => return Err(e),
        };
        Ok(TransactionType { transaction_id, time_spent_charging, remote_start_id })
    }
}

/// Decoding an encoded record yields the record back.
pub proof fn lemma_transaction_round_trip(v: TransactionV)
    requires
        v.wf(),
    ensures
        TransactionType::spec_from_json(TransactionType::spec_to_json(v)) == Ok::<
            TransactionV,
            ErrorV,
        >(v),
{
    reveal_strlit("transactionId");
    reveal_strlit("timeSpentCharging");
    reveal_strlit("remoteStartId");
    assert("transactionId"@.len() == 13 && "transactionId"@[0] == 't');
    assert("timeSpentCharging"@.len() == 17 && "timeSpentCharging"@[0] == 't');
    assert("remoteStartId"@.len() == 13 && "remoteStartId"@[0] == 'r');
    let f_id = JsonV::Str(v.transaction_id);
    let o_time = TransactionType::spec_int_val(v.time_spent_charging);
    let o_remote = TransactionType::spec_int_val(v.remote_start_id);
    let t2 = opt_field("remoteStartId"@, o_remote) + Seq::<(Seq<char>, JsonV)>::empty();
    let t1 = opt_field("timeSpentCharging"@, o_time) + t2;
    lemma_get_req("transactionId"@, f_id, t1);
    lemma_skip_req("transactionId"@, f_id, t1, "timeSpentCharging"@);
    lemma_get_opt("timeSpentCharging"@, o_time, t2);
    lemma_skip_opt("remoteStartId"@, o_remote, Seq::<(Seq<char>, JsonV)>::empty(), "timeSpentCharging"@);
    lemma_skip_req("transactionId"@, f_id, t1, "remoteStartId"@);
    lemma_skip_opt("timeSpentCharging"@, o_time, t2, "remoteStartId"@);
    lemma_get_opt("remoteStartId"@, o_remote, Seq::<(Seq<char>, JsonV)>::empty());
}

} // verus!
