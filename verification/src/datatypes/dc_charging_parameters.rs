//! EV DC charging parameters.

use vstd::prelude::*;

use crate::codec::dec_opt_int;
use crate::codec::dec_req_int;
use crate::codec::lemma_get_opt;
use crate::codec::lemma_get_req;
use crate::codec::lemma_skip_opt;
use crate::codec::lemma_skip_req;
use crate::codec::opt_field;
use crate::codec::req_field;
use crate::decimal::Decimal;
use crate::error::CodecError;
use crate::error::ErrorV;
use crate::json::kind_of;
use crate::json::push_field;
use crate::json::Json;
use crate::json::JsonField;
use crate::json::JsonV;

verus! {

/// DC charging limits the EV reports.
#[derive(Debug, Clone, PartialEq)]
pub struct DCChargingParametersType {
    pub ev_max_current: i64,
    pub ev_max_voltage: i64,
    pub energy_amount: Option<i64>,
    pub state_of_charge: Option<i32>,
}

/// The mathematical model of a [`DCChargingParametersType`].
pub struct DCChargingParametersV {
    pub ev_max_current: int,
    pub ev_max_voltage: int,
    pub energy_amount: Option<int>,
    pub state_of_charge: Option<int>,
}

impl View for DCChargingParametersType {
    type V = DCChargingParametersV;

    open spec fn view(&self) -> DCChargingParametersV {
        DCChargingParametersV {
            ev_max_current: self.ev_max_current as int,
            ev_max_voltage: self.ev_max_voltage as int,
            energy_amount: match self.energy_amount {
                Option::Some(n) => Option::Some(n as int),
                Option::None => Option::None,
            },
            state_of_charge: match self.state_of_charge {
                Option::Some(n) => Option::Some(n as int),
                Option::None => Option::None,
            },
        }
    }
}

impl Default for DCChargingParametersType {
    /// The all-default record: zero limits, nothing optional.
    fn default() -> (r: Self)
        ensures
            r@.ev_max_current == 0,
            r@.ev_max_voltage == 0,
            r@.energy_amount is None,
            r@.state_of_charge is None,
    {
        DCChargingParametersType {
            ev_max_current: 0,
            ev_max_voltage: 0,
            energy_amount: Option::None,
            state_of_charge: Option::None,
        }
    }
}

impl DCChargingParametersV {
    /// A well-formed model: values fit in their machine widths.
    pub open spec fn wf(self) -> bool {
        &&& i64::MIN <= self.ev_max_current <= i64::MAX
        &&& i64::MIN <= self.ev_max_voltage <= i64::MAX
        &&& self.energy_amount matches Option::Some(n) ==> i64::MIN <= n <= i64::MAX
        &&& self.state_of_charge matches Option::Some(n) ==> i32::MIN <= n <= i32::MAX
    }
}

impl DCChargingParametersType {
    /// The tree an optional number contributes.
    pub open spec fn spec_int_val(o: Option<int>) -> Option<JsonV> {
        match o {
            Option::Some(n) => Option::Some(JsonV::Num(Decimal { mantissa: n as i64, scale: 0 })),
            Option::None => Option::None,
        }
    }

    /// The members of the encoded record, in writing order.
    pub open spec fn spec_members(v: DCChargingParametersV) -> Seq<(Seq<char>, JsonV)> {
        let t3 = opt_field("stateOfCharge"@, Self::spec_int_val(v.state_of_charge)) + Seq::<(
            Seq<char>,
            JsonV,
        )>::empty();
        let t2 = opt_field("energyAmount"@, Self::spec_int_val(v.energy_amount)) + t3;
        let t1 = req_field(
            "evMaxVoltage"@,
            JsonV::Num(Decimal { mantissa: v.ev_max_voltage as i64, scale: 0 }),
        ) + t2;
        req_field(
            "evMaxCurrent"@,
            JsonV::Num(Decimal { mantissa: v.ev_max_current as i64, scale: 0 }),
        ) + t1
    }

    /// The encoded tree of a model value.
    pub open spec fn spec_to_json(v: DCChargingParametersV) -> JsonV {
        JsonV::Obj(Self::spec_members(v))
    }

    /// The decoded model value of a tree, or the first failure.
    pub open spec fn spec_from_json(j: JsonV) -> Result<DCChargingParametersV, ErrorV> {
        if !(j is Obj) {
            Err(
                ErrorV::TypeMismatch {
                    field: Seq::<char>::empty(),
                    expected: "object"@,
                    found: kind_of(j),
                },
            )
        } else {
            let r_max = dec_req_int(j, "evMaxCurrent"@, i64::MIN as int, i64::MAX as int);
            let r_volt = dec_req_int(j, "evMaxVoltage"@, i64::MIN as int, i64::MAX as int);
            let r_energy = dec_opt_int(j, "energyAmount"@, i64::MIN as int, i64::MAX as int);
            let r_soc = dec_opt_int(j, "stateOfCharge"@, i32::MIN as int, i32::MAX as int);
            if r_max is Err {
                Err(r_max->Err_0)
            } else if r_volt is Err {
                Err(r_volt->Err_0)
            } else if r_energy is Err {
                Err(r_energy->Err_0)
            } else if r_soc is Err {
                Err(r_soc->Err_0)
            } else {
                Ok(
                    DCChargingParametersV {
                        ev_max_current: r_max->Ok_0,
                        ev_max_voltage: r_volt->Ok_0,
                        energy_amount: r_energy->Ok_0,
                        state_of_charge: r_soc->Ok_0,
                    },
                )
            }
        }
    }

    /// Encode: one map-shaped record, absent optional fields omitted.
    pub fn to_json(&self) -> (r: Json)
        ensures
            r@ == Self::spec_to_json(self@),
    {
        let mut fields: Vec<JsonField> = Vec::new();
        push_field(
            &mut fields,
            "evMaxCurrent",
            Json::Num(Decimal { mantissa: self.ev_max_current, scale: 0 }),
        );
        push_field(
            &mut fields,
            "evMaxVoltage",
            Json::Num(Decimal { mantissa: self.ev_max_voltage, scale: 0 }),
        );
        match &self.energy_amount {
            Option::Some(n) => push_field(
                &mut fields,
                "energyAmount",
                Json::Num(Decimal { mantissa: *n, scale: 0 }),
            ),
            Option::None => {},
        }
        match &self.state_of_charge {
            Option::Some(n) => push_field(
                &mut fields,
                "stateOfCharge",
                Json::Num(Decimal { mantissa: *n as i64, scale: 0 }),
            ),
            Option::None => {},
        }
        let r = Json::Obj(fields);
        proof {
            assert(crate::json::fields_view(fields@) =~= Self::spec_members(self@));
        }
        r
    }

    /// Decode, ignoring unknown keys; fails exactly as the model decoder says.
    pub fn from_json(j: &Json) -> (r: Result<Self, CodecError>)
        ensures
            match r {
                Ok(v) => Self::spec_from_json(j@) == Ok::<DCChargingParametersV, ErrorV>(v@),
                Err(e) => Self::spec_from_json(j@) == Err::<DCChargingParametersV, ErrorV>(e@),
            },
    {
        match j {
            Json::Obj(_) => {},
            _ => {
                return Err(
                    CodecError::TypeMismatch {
                        field: String::new(),
                        expected: "object".to_owned(),
                        found: j.kind().to_owned(),
                    },
                );
            },
        }
        let ev_max_current = match j.get_req_i64("evMaxCurrent") {
            Ok(v) => v,
            Err(e) => return Err(e),
        };
        let ev_max_voltage = match j.get_req_i64("evMaxVoltage") {
            Ok(v) => v,
            Err(e) => return Err(e),
        };
        let energy_amount = match j.get_opt_i64("energyAmount") {
            Ok(v) => v,
            Err(e) => return Err(e),
        };
        let state_of_charge = match j.get_opt_i32("stateOfCharge") {
            Ok(v) => v,
            Err(e) => return Err(e),
        };
        Ok(
            DCChargingParametersType {
                ev_max_current,
                ev_max_voltage,
                energy_amount,
                state_of_charge,
            },
        )
    }
}

/// Decoding an encoded record yields the record back.
pub proof fn lemma_dc_charging_parameters_round_trip(v: DCChargingParametersV)
    requires
        v.wf(),
    ensures
        DCChargingParametersType::spec_from_json(DCChargingParametersType::spec_to_json(v)) == Ok::<
            DCChargingParametersV,
            ErrorV,
        >(v),
{
    reveal_strlit("evMaxCurrent");
    reveal_strlit("evMaxVoltage");
    reveal_strlit("energyAmount");
    reveal_strlit("stateOfCharge");
    assert("evMaxCurrent"@[1] == 'v' && "evMaxCurrent"@[5] == 'C');
    assert("evMaxVoltage"@[1] == 'v' && "evMaxVoltage"@[5] == 'V');
    assert("energyAmount"@[1] == 'n');
    assert("stateOfCharge"@.len() == 13 && "evMaxCurrent"@.len() == 12);
    let f0 = JsonV::Num(Decimal { mantissa: v.ev_max_current as i64, scale: 0 });
    let f1 = JsonV::Num(Decimal { mantissa: v.ev_max_voltage as i64, scale: 0 });
    let o2 = DCChargingParametersType::spec_int_val(v.energy_amount);
    let o3 = DCChargingParametersType::spec_int_val(v.state_of_charge);
    let t3 = opt_field("stateOfCharge"@, o3) + Seq::<(Seq<char>, JsonV)>::empty();
    let t2 = opt_field("energyAmount"@, o2) + t3;
    let t1 = req_field("evMaxVoltage"@, f1) + t2;
    lemma_get_req("evMaxCurrent"@, f0, t1);
    lemma_skip_req("evMaxCurrent"@, f0, t1, "evMaxVoltage"@);
    lemma_get_req("evMaxVoltage"@, f1, t2);
    lemma_skip_req("evMaxCurrent"@, f0, t1, "energyAmount"@);
    lemma_skip_req("evMaxVoltage"@, f1, t2, "energyAmount"@);
    lemma_get_opt("energyAmount"@, o2, t3);
    lemma_skip_opt("stateOfCharge"@, o3, Seq::<(Seq<char>, JsonV)>::empty(), "energyAmount"@);
    lemma_skip_req("evMaxCurrent"@, f0, t1, "stateOfCharge"@);
    lemma_skip_req("evMaxVoltage"@, f1, t2, "stateOfCharge"@);
    lemma_skip_opt("energyAmount"@, o2, t3, "stateOfCharge"@);
    lemma_get_opt("stateOfCharge"@, o3, Seq::<(Seq<char>, JsonV)>::empty());
}

} // verus!
