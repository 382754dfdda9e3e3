//! What the EV needs for the charging session it requests.

use vstd::prelude::*;

use crate::codec::dec_opt_instant;
use crate::codec::dec_req_str;
use crate::codec::lemma_get_opt;
use crate::codec::lemma_get_req;
use crate::codec::lemma_skip_opt;
use crate::codec::lemma_skip_req;
use crate::codec::opt_field;
use crate::codec::req_field;
use crate::datatypes::ac_charging_parameters::lemma_ac_charging_parameters_round_trip;
use crate::datatypes::ac_charging_parameters::ACChargingParametersType;
use crate::datatypes::ac_charging_parameters::ACChargingParametersV;
use crate::datatypes::dc_charging_parameters::lemma_dc_charging_parameters_round_trip;
use crate::datatypes::dc_charging_parameters::DCChargingParametersType;
use crate::datatypes::dc_charging_parameters::DCChargingParametersV;
use crate::enums::lemma_energy_transfer_mode_round_trip;
use crate::enums::EnergyTransferModeEnumType;
use crate::error::CodecError;
use crate::error::ErrorV;
use crate::instant::lemma_instant_round_trip;
use crate::instant::rfc3339_of;
use crate::instant::Instant;
use crate::json::kind_of;
use crate::json::push_field;
use crate::json::spec_get_obj;
use crate::json::Json;
use crate::json::JsonField;
use crate::json::JsonV;

verus! {

/// The charging needs of an EV: transfer mode, estimated departure, and the
/// AC or DC parameter block it reported.
#[derive(Debug, Clone, PartialEq)]
pub struct ChargingNeedsType {
    pub requested_energy_transfer: EnergyTransferModeEnumType,
    pub departure_time: Option<Instant>,
    pub ac_charging_parameters: Option<ACChargingParametersType>,
    pub dc_charging_parameters: Option<DCChargingParametersType>,
}

/// The mathematical model of a [`ChargingNeedsType`].
pub struct ChargingNeedsV {
    pub requested_energy_transfer: EnergyTransferModeEnumType,
    pub departure_time: Option<Instant>,
    pub ac_charging_parameters: Option<ACChargingParametersV>,
    pub dc_charging_parameters: Option<DCChargingParametersV>,
}

impl View for ChargingNeedsType {
    type V = ChargingNeedsV;

    open spec fn view(&self) -> ChargingNeedsV {
        ChargingNeedsV {
            requested_energy_transfer: self.requested_energy_transfer,
            departure_time: self.departure_time,
            ac_charging_parameters: match self.ac_charging_parameters {
                Option::Some(p) => Option::Some(p@),
                Option::None => Option::None,
            },
            dc_charging_parameters: match self.dc_charging_parameters {
                Option::Some(p) => Option::Some(p@),
                Option::None => Option::None,
            },
        }
    }
}

impl Default for ChargingNeedsType {
    /// The all-default record: DC transfer, nothing optional.
    fn default() -> (r: Self)
        ensures
            r@.requested_energy_transfer == EnergyTransferModeEnumType::DC,
            r@.departure_time is None,
            r@.ac_charging_parameters is None,
            r@.dc_charging_parameters is None,
    {
        ChargingNeedsType {
            requested_energy_transfer: EnergyTransferModeEnumType::DC,
            departure_time: Option::None,
            ac_charging_parameters: Option::None,
            dc_charging_parameters: Option::None,
        }
    }
}

impl ChargingNeedsV {
    /// A well-formed model: a real instant and well-formed parameter blocks.
    pub open spec fn wf(self) -> bool {
        &&& self.departure_time matches Option::Some(i) ==> i.wf()
        &&& self.ac_charging_parameters matches Option::Some(p) ==> p.wf()
        &&& self.dc_charging_parameters matches Option::Some(p) ==> p.wf()
    }
}

impl ChargingNeedsType {
    /// The tree an optional departure instant contributes.
    pub open spec fn spec_departure_val(o: Option<Instant>) -> Option<JsonV> {
        match o {
            Option::Some(i) => Option::Some(JsonV::Str(rfc3339_of(i))),
            Option::None => Option::None,
        }
    }

    /// The tree an optional AC parameter block contributes.
    pub open spec fn spec_ac_val(o: Option<ACChargingParametersV>) -> Option<JsonV> {
        match o {
            Option::Some(p) => Option::Some(ACChargingParametersType::spec_to_json(p)),
            Option::None => Option::None,
        }
    }

    /// The tree an optional DC parameter block contributes.
    pub open spec fn spec_dc_val(o: Option<DCChargingParametersV>) -> Option<JsonV> {
        match o {
            Option::Some(p) => Option::Some(DCChargingParametersType::spec_to_json(p)),
            Option::None => Option::None,
        }
    }

    /// The members of the encoded record, in writing order.
    pub open spec fn spec_members(v: ChargingNeedsV) -> Seq<(Seq<char>, JsonV)> {
        let t3 = opt_field("dcChargingParameters"@, Self::spec_dc_val(v.dc_charging_parameters))
            + Seq::<(Seq<char>, JsonV)>::empty();
        let t2 = opt_field("acChargingParameters"@, Self::spec_ac_val(v.ac_charging_parameters))
            + t3;
        let t1 = opt_field("departureTime"@, Self::spec_departure_val(v.departure_time)) + t2;
        req_field("requestedEnergyTransfer"@, JsonV::Str(v.requested_energy_transfer.spec_tag()))
            + t1
    }

    /// The encoded tree of a model value.
    pub open spec fn spec_to_json(v: ChargingNeedsV) -> JsonV {
        JsonV::Obj(Self::spec_members(v))
    }

    /// The optional nested AC block of a tree.
    pub open spec fn spec_ac(j: JsonV) -> Result<Option<ACChargingParametersV>, ErrorV> {
        match spec_get_obj(j, "acChargingParameters"@) {
            Option::None => Ok(Option::None),
            Option::Some(sub) => match ACChargingParametersType::spec_from_json(sub) {
                Ok(p) => Ok(Option::Some(p)),
                Err(e) => Err(e),
            },
        }
    }

    /// The optional nested DC block of a tree.
    pub open spec fn spec_dc(j: JsonV) -> Result<Option<DCChargingParametersV>, ErrorV> {
        match spec_get_obj(j, "dcChargingParameters"@) {
            Option::None => Ok(Option::None),
            Option::Some(sub) => match DCChargingParametersType::spec_from_json(sub) {
                Ok(p) => Ok(Option::Some(p)),
                Err(e) => Err(e),
            },
        }
    }

    /// The decoded model value of a tree, or the first failure.
    pub open spec fn spec_from_json(j: JsonV) -> Result<ChargingNeedsV, ErrorV> {
        if !(j is Obj) {
            Err(
                ErrorV::TypeMismatch {
                    field: Seq::<char>::empty(),
                    expected: "object"@,
                    found: kind_of(j),
                },
            )
        } else {
            let r_tag = dec_req_str(j, "requestedEnergyTransfer"@);
            let r_dep = dec_opt_instant(j, "departureTime"@);
            let r_ac = Self::spec_ac(j);
            let r_dc = Self::spec_dc(j);
            if r_tag is Err {
                Err(r_tag->Err_0)
            } else if EnergyTransferModeEnumType::spec_of_tag(r_tag->Ok_0) is None {
                Err(
                    ErrorV::UnknownEnumerationValue {
                        enum_name: "EnergyTransferModeEnumType"@,
                        received_tag: r_tag->Ok_0,
                    },
                )
            } else if r_dep is Err {
                Err(r_dep->Err_0)
            } else if r_ac is Err {
                Err(r_ac->Err_0)
            } else if r_dc is Err {
                Err(r_dc->Err_0)
            } else {
                Ok(
                    ChargingNeedsV {
                        requested_energy_transfer: EnergyTransferModeEnumType::spec_of_tag(
                            r_tag->Ok_0,
                        )->Some_0,
                        departure_time: r_dep->Ok_0,
                        ac_charging_parameters: r_ac->Ok_0,
                        dc_charging_parameters: r_dc->Ok_0,
                    },
                )
            }
        }
    }

    /// Encode: one map-shaped record, absent optional fields omitted.
    pub fn to_json(&self) -> (r: Json)
        requires
            self@.wf(),
        ensures
            r@ == Self::spec_to_json(self@),
    {
        let mut fields: Vec<JsonField> = Vec::new();
        push_field(
            &mut fields,
            "requestedEnergyTransfer",
            Json::Str(self.requested_energy_transfer.tag().to_owned()),
        );
        match &self.departure_time {
            Option::Some(i) => push_field(&mut fields, "departureTime", Json::Str(i.to_rfc3339())),
            Option::None => {},
        }
        match &self.ac_charging_parameters {
            Option::Some(p) => push_field(&mut fields, "acChargingParameters", p.to_json()),
            Option::None => {},
        }
        match &self.dc_charging_parameters {
            Option::Some(p) => push_field(&mut fields, "dcChargingParameters", p.to_json()),
            Option::None => {},
        }
        let r = Json::Obj(fields);
        proof {
            assert(crate::json::fields_view(fields@) =~= Self::spec_members(self@));
        }
        r
    }

    /// Decode, ignoring unknown keys; fails exactly as the model decoder says.
    pub fn from_json(j: &Json) -> (r: Result<Self, CodecError>)
        ensures
            match r {
                Ok(v) => Self::spec_from_json(j@) == Ok::<ChargingNeedsV, ErrorV>(v@),
                Err(e) => Self::spec_from_json(j@) == Err::<ChargingNeedsV, ErrorV>(e@),
            },
    {
        match j {
            Json::Obj(_) => {},
            _ => {
                return Err(
                    CodecError::TypeMismatch {
                        field: String::new(),
                        expected: "object".to_owned(),
                        found: j.kind().to_owned(),
                    },
                );
            },
        }
        let tag = match j.get_req_str("requestedEnergyTransfer") {
            Ok(v) => v,
            Err(e) => return Err(e),
        };
        let requested_energy_transfer = match EnergyTransferModeEnumType::from_tag(tag.as_str()) {
            Option::Some(m) => m,
            Option::None => {
                return Err(
                    CodecError::UnknownEnumerationValue {
                        enum_name: "EnergyTransferModeEnumType".to_owned(),
                        received_tag: tag,
                    },
                );
            },
        };
        let departure_time = match j.get_opt_instant("departureTime") {
            Ok(v) => v,
            Err(e) => return Err(e),
        };
        let ac_charging_parameters = match j.get("acChargingParameters") {
            Option::None => Option::None,
            Option::Some(sub) => match ACChargingParametersType::from_json(sub) {
                Ok(p) => Option::Some(p),
                Err(e) => return Err(e),
            },
        };
        let dc_charging_parameters = match j.get("dcChargingParameters") {
            Option::None => Option::None,
            Option::Some(sub) => match DCChargingParametersType::from_json(sub) {
                Ok(p) => Option::Some(p),
                Err(e) => return Err(e),
            },
        };
        Ok(
            ChargingNeedsType {
                requested_energy_transfer,
                departure_time,
                ac_charging_parameters,
                dc_charging_parameters,
            },
        )
    }
}

/// Decoding an encoded record yields the record back.
pub proof fn lemma_charging_needs_round_trip(v: ChargingNeedsV)
    requires
        v.wf(),
    ensures
        ChargingNeedsType::spec_from_json(ChargingNeedsType::spec_to_json(v)) == Ok::<
            ChargingNeedsV,
            ErrorV,
        >(v),
{
    reveal_strlit("requestedEnergyTransfer");
    reveal_strlit("departureTime");
    reveal_strlit("acChargingParameters");
    reveal_strlit("dcChargingParameters");
    assert("requestedEnergyTransfer"@.len() == 23);
    assert("departureTime"@.len() == 13);
    assert("acChargingParameters"@.len() == 20 && "acChargingParameters"@[0] == 'a');
    assert("dcChargingParameters"@.len() == 20 && "dcChargingParameters"@[0] == 'd');
    let f_mode = JsonV::Str(v.requested_energy_transfer.spec_tag());
    let o_dep = ChargingNeedsType::spec_departure_val(v.departure_time);
    let o_ac = ChargingNeedsType::spec_ac_val(v.ac_charging_parameters);
    let o_dc = ChargingNeedsType::spec_dc_val(v.dc_charging_parameters);
    let t3 = opt_field("dcChargingParameters"@, o_dc) + Seq::<(Seq<char>, JsonV)>::empty();
    let t2 = opt_field("acChargingParameters"@, o_ac) + t3;
    let t1 = opt_field("departureTime"@, o_dep) + t2;
    lemma_get_req("requestedEnergyTransfer"@, f_mode, t1);
    lemma_energy_transfer_mode_round_trip(v.requested_energy_transfer);
    lemma_skip_req("requestedEnergyTransfer"@, f_mode, t1, "departureTime"@);
    lemma_get_opt("departureTime"@, o_dep, t2);
    lemma_skip_opt("acChargingParameters"@, o_ac, t3, "departureTime"@);
    lemma_skip_opt("dcChargingParameters"@, o_dc, Seq::<(Seq<char>, JsonV)>::empty(), "departureTime"@);
    if v.departure_time is Some {
        lemma_instant_round_trip(v.departure_time->0);
    }
    lemma_skip_req("requestedEnergyTransfer"@, f_mode, t1, "acChargingParameters"@);
    lemma_skip_opt("departureTime"@, o_dep, t2, "acChargingParameters"@);
    lemma_get_opt("acChargingParameters"@, o_ac, t3);
    lemma_skip_opt(
        "dcChargingParameters"@,
        o_dc,
        Seq::<(Seq<char>, JsonV)>::empty(),
        "acChargingParameters"@,
    );
    if v.ac_charging_parameters is Some {
        lemma_ac_charging_parameters_round_trip(v.ac_charging_parameters->0);
    }
    lemma_skip_req("requestedEnergyTransfer"@, f_mode, t1, "dcChargingParameters"@);
    lemma_skip_opt("departureTime"@, o_dep, t2, "dcChargingParameters"@);
    lemma_skip_opt("acChargingParameters"@, o_ac, t3, "dcChargingParameters"@);
    lemma_get_opt("dcChargingParameters"@, o_dc, Seq::<(Seq<char>, JsonV)>::empty());
    if v.dc_charging_parameters is Some {
        lemma_dc_charging_parameters_round_trip(v.dc_charging_parameters->0);
    }
}

} // verus!
