//! EV AC charging parameters.

use vstd::prelude::*;

use crate::codec::dec_req_int;
use crate::codec::lemma_get_req;
use crate::codec::lemma_skip_req;
use crate::codec::req_field;
use crate::decimal::Decimal;
use crate::error::CodecError;
use crate::error::ErrorV;
use crate::json::kind_of;
use crate::json::push_field;
use crate::json::Json;
use crate::json::JsonField;
use crate::json::JsonV;

verus! {

/// AC charging limits the EV reports.
#[derive(Debug, Clone, PartialEq)]
pub struct ACChargingParametersType {
    pub energy_amount: i64,
    pub ev_min_current: i64,
    pub ev_max_current: i64,
    pub ev_max_voltage: i64,
}

/// The mathematical model of an [`ACChargingParametersType`].
pub struct ACChargingParametersV {
    pub energy_amount: int,
    pub ev_min_current: int,
    pub ev_max_current: int,
    pub ev_max_voltage: int,
}

impl View for ACChargingParametersType {
    type V = ACChargingParametersV;

    open spec fn view(&self) -> ACChargingParametersV {
        ACChargingParametersV {
            energy_amount: self.energy_amount as int,
            ev_min_current: self.ev_min_current as int,
            ev_max_current: self.ev_max_current as int,
            ev_max_voltage: self.ev_max_voltage as int,
        }
    }
}

impl Default for ACChargingParametersType {
    /// The all-default record: zero limits.
    fn default() -> (r: Self)
        ensures
            r@.energy_amount == 0,
            r@.ev_min_current == 0,
            r@.ev_max_current == 0,
            r@.ev_max_voltage == 0,
    {
        ACChargingParametersType {
            energy_amount: 0,
            ev_min_current: 0,
            ev_max_current: 0,
            ev_max_voltage: 0,
        }
    }
}

impl ACChargingParametersV {
    /// A well-formed model: values fit in 64 bits.
    pub open spec fn wf(self) -> bool {
        &&& i64::MIN <= self.energy_amount <= i64::MAX
        &&& i64::MIN <= self.ev_min_current <= i64::MAX
        &&& i64::MIN <= self.ev_max_current <= i64::MAX
        &&& i64::MIN <= self.ev_max_voltage <= i64::MAX
    }
}

impl ACChargingParametersType {
    /// The members of the encoded record, in writing order.
    pub open spec fn spec_members(v: ACChargingParametersV) -> Seq<(Seq<char>, JsonV)> {
        let t3 = req_field(
            "evMaxVoltage"@,
            JsonV::Num(Decimal { mantissa: v.ev_max_voltage as i64, scale: 0 }),
        ) + Seq::<(Seq<char>, JsonV)>::empty();
        let t2 = req_field(
            "evMaxCurrent"@,
            JsonV::Num(Decimal { mantissa: v.ev_max_current as i64, scale: 0 }),
        ) + t3;
        let t1 = req_field(
            "evMinCurrent"@,
            JsonV::Num(Decimal { mantissa: v.ev_min_current as i64, scale: 0 }),
        ) + t2;
        req_field(
            "energyAmount"@,
            JsonV::Num(Decimal { mantissa: v.energy_amount as i64, scale: 0 }),
        ) + t1
    }

    /// The encoded tree of a model value.
    pub open spec fn spec_to_json(v: ACChargingParametersV) -> JsonV {
        JsonV::Obj(Self::spec_members(v))
    }

    /// The decoded model value of a tree, or the first failure.
    pub open spec fn spec_from_json(j: JsonV) -> Result<ACChargingParametersV, ErrorV> {
        if !(j is Obj) {
            Err(
                ErrorV::TypeMismatch {
                    field: Seq::<char>::empty(),
                    expected: "object"@,
                    found: kind_of(j),
                },
            )
        } else {
            let r_energy = dec_req_int(j, "energyAmount"@, i64::MIN as int, i64::MAX as int);
            let r_min = dec_req_int(j, "evMinCurrent"@, i64::MIN as int, i64::MAX as int);
            let r_max = dec_req_int(j, "evMaxCurrent"@, i64::MIN as int, i64::MAX as int);
            let r_volt = dec_req_int(j, "evMaxVoltage"@, i64::MIN as int, i64::MAX as int);
            if r_energy is Err {
                Err(r_energy->Err_0)
            } else if r_min is Err {
                Err(r_min->Err_0)
            } else if r_max is Err {
                Err(r_max->Err_0)
            } else if r_volt is Err {
                Err(r_volt->Err_0)
            } else {
                Ok(
                    ACChargingParametersV {
                        energy_amount: r_energy->Ok_0,
                        ev_min_current: r_min->Ok_0,
                        ev_max_current: r_max->Ok_0,
                        ev_max_voltage: r_volt->Ok_0,
                    },
                )
            }
        }
    }

    /// Encode: one map-shaped record.
    pub fn to_json(&self) -> (r: Json)
        ensures
            r@ == Self::spec_to_json(self@),
    {
        let mut fields: Vec<JsonField> = Vec::new();
        push_field(
            &mut fields,
            "energyAmount",
            Json::Num(Decimal { mantissa: self.energy_amount, scale: 0 }),
        );
        push_field(
            &mut fields,
            "evMinCurrent",
            Json::Num(Decimal { mantissa: self.ev_min_current, scale: 0 }),
        );
        push_field(
            &mut fields,
            "evMaxCurrent",
            Json::Num(Decimal { mantissa: self.ev_max_current, scale: 0 }),
        );
        push_field(
            &mut fields,
            "evMaxVoltage",
            Json::Num(Decimal { mantissa: self.ev_max_voltage, scale: 0 }),
        );
        let r = Json::Obj(fields);
        proof {
            assert(crate::json::fields_view(fields@) =~= Self::spec_members(self@));
        }
        r
    }

    /// Decode, ignoring unknown keys; fails exactly as the model decoder says.
    pub fn from_json(j: &Json) -> (r: Result<Self, CodecError>)
        ensures
            match r {
                Ok(v) => Self::spec_from_json(j@) == Ok::<ACChargingParametersV, ErrorV>(v@),
                Err(e) => Self::spec_from_json(j@) == Err::<ACChargingParametersV, ErrorV>(e@),
            },
    {
        match j {
            Json::Obj(_) => {},
            _ => {
                return Err(
                    CodecError::TypeMismatch {
                        field: String::new(),
                        expected: "object".to_owned(),
                        found: j.kind().to_owned(),
                    },
                );
            },
        }
        let energy_amount = match j.get_req_i64("energyAmount") {
            Ok(v) => v,
            Err(e) => return Err(e),
        };
        let ev_min_current = match j.get_req_i64("evMinCurrent") {
            Ok(v) => v,
            Err(e) => return Err(e),
        };
        let ev_max_current = match j.get_req_i64("evMaxCurrent") {
            Ok(v) => v,
            Err(e) => return Err(e),
        };
        let ev_max_voltage = match j.get_req_i64("evMaxVoltage") {
            Ok(v) => v,
            Err(e) => return Err(e),
        };
        Ok(ACChargingParametersType { energy_amount, ev_min_current, ev_max_current, ev_max_voltage })
    }
}

/// Facts about this record's keys: equal lengths, told apart by inner
/// characters.
proof fn lemma_ac_keys()
    ensures
        "energyAmount"@ != "evMinCurrent"@,
        "energyAmount"@ != "evMaxCurrent"@,
        "energyAmount"@ != "evMaxVoltage"@,
        "evMinCurrent"@ != "evMaxCurrent"@,
        "evMinCurrent"@ != "evMaxVoltage"@,
        "evMaxCurrent"@ != "evMaxVoltage"@,
{
    reveal_strlit("energyAmount");
    reveal_strlit("evMinCurrent");
    reveal_strlit("evMaxCurrent");
    reveal_strlit("evMaxVoltage");
    assert("energyAmount"@[1] == 'n');
    assert("evMinCurrent"@[1] == 'v' && "evMinCurrent"@[3] == 'i');
    assert("evMaxCurrent"@[1] == 'v' && "evMaxCurrent"@[3] == 'a' && "evMaxCurrent"@[5] == 'C');
    assert("evMaxVoltage"@[1] == 'v' && "evMaxVoltage"@[3] == 'a' && "evMaxVoltage"@[5] == 'V');
}

/// Decoding an encoded record yields the record back.
pub proof fn lemma_ac_charging_parameters_round_trip(v: ACChargingParametersV)
    requires
        v.wf(),
    ensures
        ACChargingParametersType::spec_from_json(ACChargingParametersType::spec_to_json(v)) == Ok::<
            ACChargingParametersV,
            ErrorV,
        >(v),
{
    lemma_ac_keys();
    let f0 = JsonV::Num(Decimal { mantissa: v.energy_amount as i64, scale: 0 });
    let f1 = JsonV::Num(Decimal { mantissa: v.ev_min_current as i64, scale: 0 });
    let f2 = JsonV::Num(Decimal { mantissa: v.ev_max_current as i64, scale: 0 });
    let f3 = JsonV::Num(Decimal { mantissa: v.ev_max_voltage as i64, scale: 0 });
    let t3 = req_field("evMaxVoltage"@, f3) + Seq::<(Seq<char>, JsonV)>::empty();
    let t2 = req_field("evMaxCurrent"@, f2) + t3;
    let t1 = req_field("evMinCurrent"@, f1) + t2;
    lemma_get_req("energyAmount"@, f0, t1);
    lemma_skip_req("energyAmount"@, f0, t1, "evMinCurrent"@);
    lemma_get_req("evMinCurrent"@, f1, t2);
    lemma_skip_req("energyAmount"@, f0, t1, "evMaxCurrent"@);
    lemma_skip_req("evMinCurrent"@, f1, t2, "evMaxCurrent"@);
    lemma_get_req("evMaxCurrent"@, f2, t3);
    lemma_skip_req("energyAmount"@, f0, t1, "evMaxVoltage"@);
    lemma_skip_req("evMinCurrent"@, f1, t2, "evMaxVoltage"@);
    lemma_skip_req("evMaxCurrent"@, f2, t3, "evMaxVoltage"@);
    lemma_get_req("evMaxVoltage"@, f3, Seq::<(Seq<char>, JsonV)>::empty());
}

} // verus!
