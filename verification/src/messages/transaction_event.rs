//! The transaction event operation: the request a charging station sends for
//! each transaction event, and the response it receives.

use vstd::prelude::*;

use crate::codec::dec_opt_bool;
use crate::codec::dec_opt_decimal;
use crate::codec::dec_opt_int;
use crate::codec::dec_req_instant;
use crate::codec::dec_req_int;
use crate::codec::dec_req_str;
use crate::codec::lemma_get_opt;
use crate::codec::lemma_get_req;
use crate::codec::lemma_skip_opt;
use crate::codec::lemma_skip_req;
use crate::codec::opt_field;
use crate::codec::req_field;
use crate::datatypes::evse::lemma_evse_round_trip;
use crate::datatypes::evse::EVSEType;
use crate::datatypes::evse::EVSEV;
use crate::datatypes::id_token::lemma_id_token_round_trip;
use crate::datatypes::id_token::IdTokenType;
use crate::datatypes::id_token::IdTokenV;
use crate::datatypes::id_token_info::lemma_id_token_info_round_trip;
use crate::datatypes::id_token_info::IdTokenInfoType;
use crate::datatypes::id_token_info::IdTokenInfoV;
use crate::datatypes::message_content::lemma_message_content_round_trip;
use crate::datatypes::message_content::MessageContentType;
use crate::datatypes::message_content::MessageContentV;
use crate::datatypes::meter_value::dec_meter_seq;
use crate::datatypes::meter_value::lemma_meter_seq_round_trip;
use crate::datatypes::meter_value::meter_seq_to_json;
use crate::datatypes::meter_value::meter_vec_from_json;
use crate::datatypes::meter_value::meter_vec_to_json;
use crate::datatypes::meter_value::meter_views;
use crate::datatypes::meter_value::MeterValueType;
use crate::datatypes::meter_value::MeterValueV;
use crate::datatypes::transaction::lemma_transaction_round_trip;
use crate::datatypes::transaction::TransactionType;
use crate::datatypes::transaction::TransactionV;
use crate::decimal::Decimal;
use crate::enums::lemma_transaction_event_round_trip;
use crate::enums::lemma_trigger_reason_round_trip;
use crate::enums::TransactionEventEnumType;
use crate::enums::TriggerReasonEnumType;
use crate::error::CodecError;
use crate::error::ErrorV;
use crate::instant::lemma_instant_round_trip;
use crate::instant::rfc3339_of;
use crate::instant::Instant;
use crate::json::kind_of;
use crate::json::push_field;
use crate::json::spec_get_obj;
use crate::json::Json;
use crate::json::JsonField;
use crate::json::JsonV;

verus! {

/// Notice of a transaction event, sent by the charging station.
#[derive(Debug, Clone, PartialEq)]
pub struct TransactionEventRequest {
    pub event_type: TransactionEventEnumType,
    pub timestamp: Instant,
    pub trigger_reason: TriggerReasonEnumType,
    pub seq_no: i32,
    pub offline: Option<bool>,
    pub number_of_phases_used: Option<i32>,
    pub cable_max_current: Option<i32>,
    pub reservation_id: Option<i32>,
    pub transaction_info: TransactionType,
    pub id_token: Option<IdTokenType>,
    pub evse: Option<EVSEType>,
    pub meter_value: Option<Vec<MeterValueType>>,
}

/// The mathematical model of a [`TransactionEventRequest`].
pub struct TransactionEventRequestV {
    pub event_type: TransactionEventEnumType,
    pub timestamp: Instant,
    pub trigger_reason: TriggerReasonEnumType,
    pub seq_no: int,
    pub offline: Option<bool>,
    pub number_of_phases_used: Option<int>,
    pub cable_max_current: Option<int>,
    pub reservation_id: Option<int>,
    pub transaction_info: TransactionV,
    pub id_token: Option<IdTokenV>,
    pub evse: Option<EVSEV>,
    pub meter_value: Option<Seq<MeterValueV>>,
}

impl View for TransactionEventRequest {
    type V = TransactionEventRequestV;

    open spec fn view(&self) -> TransactionEventRequestV {
        TransactionEventRequestV {
            event_type: self.event_type,
            timestamp: self.timestamp,
            trigger_reason: self.trigger_reason,
            seq_no: self.seq_no as int,
            offline: self.offline,
            number_of_phases_used: match self.number_of_phases_used {
                Option::Some(n) => Option::Some(n as int),
                Option::None => Option::None,
            },
            cable_max_current: match self.cable_max_current {
                Option::Some(n) => Option::Some(n as int),
                Option::None => Option::None,
            },
            reservation_id: match self.reservation_id {
                Option::Some(n) => Option::Some(n as int),
                Option::None => Option::None,
            },
            transaction_info: self.transaction_info@,
            id_token: match self.id_token {
                Option::Some(t) => Option::Some(t@),
                Option::None => Option::None,
            },
            evse: match self.evse {
                Option::Some(e) => Option::Some(e@),
                Option::None => Option::None,
            },
            meter_value: match self.meter_value {
                Option::Some(xs) => Option::Some(meter_views(xs@)),
                Option::None => Option::None,
            },
        }
    }
}

impl TransactionEventRequestV {
    /// A well-formed model: real instants everywhere, counters in 32 bits.
    pub open spec fn wf(self) -> bool {
        &&& self.timestamp.wf()
        &&& i32::MIN <= self.seq_no <= i32::MAX
        &&& self.number_of_phases_used matches Option::Some(n) ==> i32::MIN <= n <= i32::MAX
        &&& self.cable_max_current matches Option::Some(n) ==> i32::MIN <= n <= i32::MAX
        &&& self.reservation_id matches Option::Some(n) ==> i32::MIN <= n <= i32::MAX
        &&& self.transaction_info.wf()
        &&& self.evse matches Option::Some(e) ==> e.wf()
        &&& self.meter_value matches Option::Some(vs) ==> forall|i: int|
            0 <= i < vs.len() ==> (#[trigger] vs[i]).wf()
    }
}

impl TransactionEventRequest {
    /// The tree an optional boolean contributes.
    pub open spec fn spec_bool_val(o: Option<bool>) -> Option<JsonV> {
        match o {
            Option::Some(b) => Option::Some(JsonV::Bool(b)),
            Option::None => Option::None,
        }
    }

    /// The tree an optional 32-bit number contributes.
    pub open spec fn spec_int_val(o: Option<int>) -> Option<JsonV> {
        match o {
            Option::Some(n) => Option::Some(JsonV::Num(Decimal { mantissa: n as i64, scale: 0 })),
            Option::None => Option::None,
        }
    }

    /// The tree an optional identity token contributes.
    pub open spec fn spec_id_token_val(o: Option<IdTokenV>) -> Option<JsonV> {
        match o {
            Option::Some(t) => Option::Some(IdTokenType::spec_to_json(t)),
            Option::None => Option::None,
        }
    }

    /// The tree an optional EVSE contributes.
    pub open spec fn spec_evse_val(o: Option<EVSEV>) -> Option<JsonV> {
        match o {
            Option::Some(e) => Option::Some(EVSEType::spec_to_json(e)),
            Option::None => Option::None,
        }
    }

    /// The tree an optional meter value list contributes.
    pub open spec fn spec_meter_val(o: Option<Seq<MeterValueV>>) -> Option<JsonV> {
        match o {
            Option::Some(vs) => Option::Some(JsonV::Arr(meter_seq_to_json(vs))),
            Option::None => Option::None,
        }
    }

    /// The members of the encoded record, in writing order.
    pub open spec fn spec_members(v: TransactionEventRequestV) -> Seq<(Seq<char>, JsonV)> {
        let t11 = opt_field("meterValue"@, Self::spec_meter_val(v.meter_value)) + Seq::<(
            Seq<char>,
            JsonV,
        )>::empty();
        let t10 = opt_field("evse"@, Self::spec_evse_val(v.evse)) + t11;
        let t9 = opt_field("idToken"@, Self::spec_id_token_val(v.id_token)) + t10;
        let t8 = req_field("transactionInfo"@, TransactionType::spec_to_json(v.transaction_info))
            + t9;
        let t7 = opt_field("reservationId"@, Self::spec_int_val(v.reservation_id)) + t8;
        let t6 = opt_field("cableMaxCurrent"@, Self::spec_int_val(v.cable_max_current)) + t7;
        let t5 = opt_field("numberOfPhasesUsed"@, Self::spec_int_val(v.number_of_phases_used))
            + t6;
        let t4 = opt_field("offline"@, Self::spec_bool_val(v.offline)) + t5;
        let t3 = req_field("seqNo"@, JsonV::Num(Decimal { mantissa: v.seq_no as i64, scale: 0 }))
            + t4;
        let t2 = req_field("triggerReason"@, JsonV::Str(v.trigger_reason.spec_tag())) + t3;
        let t1 = req_field("timestamp"@, JsonV::Str(rfc3339_of(v.timestamp))) + t2;
        req_field("eventType"@, JsonV::Str(v.event_type.spec_tag())) + t1
    }

    /// The encoded tree of a model value.
    pub open spec fn spec_to_json(v: TransactionEventRequestV) -> JsonV {
        JsonV::Obj(Self::spec_members(v))
    }

    /// The mandatory nested transaction of a tree.
    pub open spec fn spec_txinfo(j: JsonV) -> Result<TransactionV, ErrorV> {
        match spec_get_obj(j, "transactionInfo"@) {
            Option::None => Err(ErrorV::MissingRequiredField { field: "transactionInfo"@ }),
            Option::Some(sub) => TransactionType::spec_from_json(sub),
        }
    }

    /// The optional nested identity token of a tree.
    pub open spec fn spec_id_token(j: JsonV) -> Result<Option<IdTokenV>, ErrorV> {
        match spec_get_obj(j, "idToken"@) {
            Option::None => Ok(Option::None),
            Option::Some(sub) => match IdTokenType::spec_from_json(sub) {
                Ok(t) => Ok(Option::Some(t)),
                Err(e) => Err(e),
            },
        }
    }

    /// The optional nested EVSE of a tree.
    pub open spec fn spec_evse(j: JsonV) -> Result<Option<EVSEV>, ErrorV> {
        match spec_get_obj(j, "evse"@) {
            Option::None => Ok(Option::None),
            Option::Some(sub) => match EVSEType::spec_from_json(sub) {
                Ok(e) => Ok(Option::Some(e)),
                Err(e) => Err(e),
            },
        }
    }

    /// The optional meter value list of a tree.
    pub open spec fn spec_meter(j: JsonV) -> Result<Option<Seq<MeterValueV>>, ErrorV> {
        match spec_get_obj(j, "meterValue"@) {
            Option::None => Ok(Option::None),
            Option::Some(JsonV::Arr(items)) => match dec_meter_seq(items) {
                Ok(vs) => Ok(Option::Some(vs)),
                Err(e) => Err(e),
            },
            Option::Some(v) => Err(
                ErrorV::TypeMismatch { field: "meterValue"@, expected: "array"@, found: kind_of(v) },
            ),
        }
    }

    /// The decoded model value of a tree, or the first failure.
    pub open spec fn spec_from_json(j: JsonV) -> Result<TransactionEventRequestV, ErrorV> {
        if !(j is Obj) {
            Err(
                ErrorV::TypeMismatch {
                    field: Seq::<char>::empty(),
                    expected: "object"@,
                    found: kind_of(j),
                },
            )
        } else {
            let r_event = dec_req_str(j, "eventType"@);
            let r_ts = dec_req_instant(j, "timestamp"@);
            let r_trigger = dec_req_str(j, "triggerReason"@);
            let r_seq = dec_req_int(j, "seqNo"@, i32::MIN as int, i32::MAX as int);
            let r_off = dec_opt_bool(j, "offline"@);
            let r_phases = dec_opt_int(j, "numberOfPhasesUsed"@, i32::MIN as int, i32::MAX as int);
            let r_cable = dec_opt_int(j, "cableMaxCurrent"@, i32::MIN as int, i32::MAX as int);
            let r_resv = dec_opt_int(j, "reservationId"@, i32::MIN as int, i32::MAX as int);
            let r_tx = Self::spec_txinfo(j);
            let r_idt = Self::spec_id_token(j);
            let r_evse = Self::spec_evse(j);
            let r_meter = Self::spec_meter(j);
            if r_event is Err {
                Err(r_event->Err_0)
            } else if TransactionEventEnumType::spec_of_tag(r_event->Ok_0) is None {
                Err(
                    ErrorV::UnknownEnumerationValue {
                        enum_name: "TransactionEventEnumType"@,
                        received_tag: r_event->Ok_0,
                    },
                )
            } else if r_ts is Err {
                Err(r_ts->Err_0)
            } else if r_trigger is Err {
                Err(r_trigger->Err_0)
            } else if TriggerReasonEnumType::spec_of_tag(r_trigger->Ok_0) is None {
                Err(
                    ErrorV::UnknownEnumerationValue {
                        enum_name: "TriggerReasonEnumType"@,
                        received_tag: r_trigger->Ok_0,
                    },
                )
            } else if r_seq is Err {
                Err(r_seq->Err_0)
            } else if r_off is Err {
                Err(r_off->Err_0)
            } else if r_phases is Err {
                Err(r_phases->Err_0)
            } else if r_cable is Err {
                Err(r_cable->Err_0)
            } else if r_resv is Err {
                Err(r_resv->Err_0)
            } else if r_tx is Err {
                Err(r_tx->Err_0)
            } else if r_idt is Err {
                Err(r_idt->Err_0)
            } else if r_evse is Err {
                Err(r_evse->Err_0)
            } else if r_meter is Err {
                Err(r_meter->Err_0)
            } else {
                Ok(
                    TransactionEventRequestV {
                        event_type: TransactionEventEnumType::spec_of_tag(r_event->Ok_0)->Some_0,
                        timestamp: r_ts->Ok_0,
                        trigger_reason: TriggerReasonEnumType::spec_of_tag(r_trigger->Ok_0)->Some_0,
                        seq_no: r_seq->Ok_0,
                        offline: r_off->Ok_0,
                        number_of_phases_used: r_phases->Ok_0,
                        cable_max_current: r_cable->Ok_0,
                        reservation_id: r_resv->Ok_0,
                        transaction_info: r_tx->Ok_0,
                        id_token: r_idt->Ok_0,
                        evse: r_evse->Ok_0,
                        meter_value: r_meter->Ok_0,
                    },
                )
            }
        }
    }

    /// Encode: one map-shaped record, absent optional fields omitted.
    #[verifier::rlimit(100)]
    pub fn to_json(&self) -> (r: Json)
        requires
            self@.wf(),
        ensures
            r@ == Self::spec_to_json(self@),
    {
        let ghost s0 = req_field("eventType"@, JsonV::Str(self@.event_type.spec_tag()));
        let ghost s1 = req_field("timestamp"@, JsonV::Str(rfc3339_of(self@.timestamp)));
        let ghost s2 = req_field("triggerReason"@, JsonV::Str(self@.trigger_reason.spec_tag()));
        let ghost s3 = req_field(
            "seqNo"@,
            JsonV::Num(Decimal { mantissa: self@.seq_no as i64, scale: 0 }),
        );
        let ghost s4 = opt_field("offline"@, Self::spec_bool_val(self@.offline));
        let ghost s5 = opt_field(
            "numberOfPhasesUsed"@,
            Self::spec_int_val(self@.number_of_phases_used),
        );
        let ghost s6 = opt_field("cableMaxCurrent"@, Self::spec_int_val(self@.cable_max_current));
        let ghost s7 = opt_field("reservationId"@, Self::spec_int_val(self@.reservation_id));
        let ghost s8 = req_field(
            "transactionInfo"@,
            TransactionType::spec_to_json(self@.transaction_info),
        );
        let ghost s9 = opt_field("idToken"@, Self::spec_id_token_val(self@.id_token));
        let ghost s10 = opt_field("evse"@, Self::spec_evse_val(self@.evse));
        let ghost s11 = opt_field("meterValue"@, Self::spec_meter_val(self@.meter_value));
        let ghost l0 = s0;
        let ghost l1 = l0 + s1;
        let ghost l2 = l1 + s2;
        let ghost l3 = l2 + s3;
        let ghost l4 = l3 + s4;
        let ghost l5 = l4 + s5;
        let ghost l6 = l5 + s6;
        let ghost l7 = l6 + s7;
        let ghost l8 = l7 + s8;
        let ghost l9 = l8 + s9;
        let ghost l10 = l9 + s10;
        let ghost l11 = l10 + s11;
        let mut fields: Vec<JsonField> = Vec::new();
        proof {
            broadcast use vstd::seq_lib::group_seq_lib_default;

            assert(crate::json::fields_view(fields@) =~= Seq::<(Seq<char>, JsonV)>::empty());
        }
        push_field(&mut fields, "eventType", Json::Str(self.event_type.tag().to_owned()));
        push_field(&mut fields, "timestamp", Json::Str(self.timestamp.to_rfc3339()));
        push_field(&mut fields, "triggerReason", Json::Str(self.trigger_reason.tag().to_owned()));
        push_field(
            &mut fields,
            "seqNo",
            Json::Num(Decimal { mantissa: self.seq_no as i64, scale: 0 }),
        );
        proof {
            broadcast use vstd::seq_lib::group_seq_lib_default;

            assert(crate::json::fields_view(fields@) == l3);
        }
        match &self.offline {
            Option::Some(b) => push_field(&mut fields, "offline", Json::Bool(*b)),
            Option::None => {},
        }
        proof {
            broadcast use vstd::seq_lib::group_seq_lib_default;

            assert(crate::json::fields_view(fields@) == l4);
        }
        match &self.number_of_phases_used {
            Option::Some(n) => push_field(
                &mut fields,
                "numberOfPhasesUsed",
                Json::Num(Decimal { mantissa: *n as i64, scale: 0 }),
            ),
            Option::None => {},
        }
        proof {
            broadcast use vstd::seq_lib::group_seq_lib_default;

            assert(crate::json::fields_view(fields@) == l5);
        }
        match &self.cable_max_current {
            Option::Some(n) => push_field(
                &mut fields,
                "cableMaxCurrent",
                Json::Num(Decimal { mantissa: *n as i64, scale: 0 }),
            ),
            Option::None => {},
        }
        proof {
            broadcast use vstd::seq_lib::group_seq_lib_default;

            assert(crate::json::fields_view(fields@) == l6);
        }
        match &self.reservation_id {
            Option::Some(n) => push_field(
                &mut fields,
                "reservationId",
                Json::Num(Decimal { mantissa: *n as i64, scale: 0 }),
            ),
            Option::None => {},
        }
        proof {
            broadcast use vstd::seq_lib::group_seq_lib_default;

            assert(crate::json::fields_view(fields@) == l7);
        }
        push_field(&mut fields, "transactionInfo", self.transaction_info.to_json());
        proof {
            broadcast use vstd::seq_lib::group_seq_lib_default;

            assert(crate::json::fields_view(fields@) == l8);
        }
        match &self.id_token {
            Option::Some(t) => push_field(&mut fields, "idToken", t.to_json()),
            Option::None => {},
        }
        proof {
            broadcast use vstd::seq_lib::group_seq_lib_default;

            assert(crate::json::fields_view(fields@) == l9);
        }
        match &self.evse {
            Option::Some(e) => push_field(&mut fields, "evse", e.to_json()),
            Option::None => {},
        }
        proof {
            broadcast use vstd::seq_lib::group_seq_lib_default;

            assert(crate::json::fields_view(fields@) == l10);
        }
        match &self.meter_value {
            Option::Some(xs) => push_field(&mut fields, "meterValue", meter_vec_to_json(xs)),
            Option::None => {},
        }
        proof {
            broadcast use vstd::seq_lib::group_seq_lib_default;

            assert(crate::json::fields_view(fields@) == l11);
        }
        let r = Json::Obj(fields);
        proof {
            lemma_members_reassociate(self@, s0, s1, s2, s3, s4, s5, s6, s7, s8, s9, s10, s11);
        }
        r
    }

    /// Decode, ignoring unknown keys; fails exactly as the model decoder says.
    pub fn from_json(j: &Json) -> (r: Result<Self, CodecError>)
        ensures
            match r {
                Ok(v) => Self::spec_from_json(j@) == Ok::<TransactionEventRequestV, ErrorV>(v@),
                Err(e) => Self::spec_from_json(j@) == Err::<TransactionEventRequestV, ErrorV>(e@),
            },
    {
        match j {
            Json::Obj(_) => {},
            _ => {
                return Err(
                    CodecError::TypeMismatch {
                        field: String::new(),
                        expected: "object".to_owned(),
                        found: j.kind().to_owned(),
                    },
                );
            },
        }
        let event_tag = match j.get_req_str("eventType") {
            Ok(v) => v,
            Err(e) => return Err(e),
        };
        let event_type = match TransactionEventEnumType::from_tag(event_tag.as_str()) {
            Option::Some(v) => v,
            Option::None => {
                return Err(
                    CodecError::UnknownEnumerationValue {
                        enum_name: "TransactionEventEnumType".to_owned(),
                        received_tag: event_tag,
                    },
                );
            },
        };
        let timestamp = match j.get_req_instant("timestamp") {
            Ok(v) => v,
            Err(e) => return Err(e),
        };
        let trigger_tag = match j.get_req_str("triggerReason") {
            Ok(v) => v,
            Err(e) => return Err(e),
        };
        let trigger_reason = match TriggerReasonEnumType::from_tag(trigger_tag.as_str()) {
            Option::Some(v) => v,
            Option::None => {
                return Err(
                    CodecError::UnknownEnumerationValue {
                        enum_name: "TriggerReasonEnumType".to_owned(),
                        received_tag: trigger_tag,
                    },
                );
            },
        };
        let seq_no = match j.get_req_i32("seqNo") {
            Ok(v) => v,
            Err(e) => return Err(e),
        };
        let offline = match j.get_opt_bool("offline") {
            Ok(v) => v,
            Err(e) => return Err(e),
        };
        let number_of_phases_used = match j.get_opt_i32("numberOfPhasesUsed") {
            Ok(v) => v,
            Err(e) => return Err(e),
        };
        let cable_max_current = match j.get_opt_i32("cableMaxCurrent") {
            Ok(v) => v,
            Err(e) => return Err(e),
        };
        let reservation_id = match j.get_opt_i32("reservationId") {
            Ok(v) => v,
            Err(e) => return Err(e),
        };
        let transaction_info = match j.get("transactionInfo") {
            Option::None => {
                return Err(
                    CodecError::MissingRequiredField { field: "transactionInfo".to_owned() },
                );
            },
            Option::Some(sub) => match TransactionType::from_json(sub) {
                Ok(v) => v,
                Err(e) => return Err(e),
            },
        };
        let id_token = match j.get("idToken") {
            Option::None => Option::None,
            Option::Some(sub) => match IdTokenType::from_json(sub) {
                Ok(v) => Option::Some(v),
                Err(e) => return Err(e),
            },
        };
        let evse = match j.get("evse") {
            Option::None => Option::None,
            Option::Some(sub) => match EVSEType::from_json(sub) {
                Ok(v) => Option::Some(v),
                Err(e) => return Err(e),
            },
        };
        let meter_value = match j.get("meterValue") {
            Option::None => Option::None,
            Option::Some(sub) => match sub {
                Json::Arr(items) => match meter_vec_from_json(items) {
                    Ok(xs) => Option::Some(xs),
                    Err(e) => return Err(e),
                },
                _ => {
                    return Err(
                        CodecError::TypeMismatch {
                            field: "meterValue".to_owned(),
                            expected: "array".to_owned(),
                            found: sub.kind().to_owned(),
                        },
                    );
                },
            },
        };
        Ok(
            TransactionEventRequest {
                event_type,
                timestamp,
                trigger_reason,
                seq_no,
                offline,
                number_of_phases_used,
                cable_max_current,
                reservation_id,
                transaction_info,
                id_token,
                evse,
                meter_value,
            },
        )
    }
}

/// Response to a transaction event notice, sent by the central system.
#[derive(Debug, Clone, PartialEq)]
pub struct TransactionEventResponse {
    pub total_cost: Option<Decimal>,
    pub charging_priority: Option<i32>,
    pub id_token_info: Option<IdTokenInfoType>,
    pub updated_personal_message: Option<MessageContentType>,
}

/// The mathematical model of a [`TransactionEventResponse`].
pub struct TransactionEventResponseV {
    pub total_cost: Option<Decimal>,
    pub charging_priority: Option<int>,
    pub id_token_info: Option<IdTokenInfoV>,
    pub updated_personal_message: Option<MessageContentV>,
}

impl View for TransactionEventResponse {
    type V = TransactionEventResponseV;

    open spec fn view(&self) -> TransactionEventResponseV {
        TransactionEventResponseV {
            total_cost: self.total_cost,
            charging_priority: match self.charging_priority {
                Option::Some(n) => Option::Some(n as int),
                Option::None => Option::None,
            },
            id_token_info: match self.id_token_info {
                Option::Some(t) => Option::Some(t@),
                Option::None => Option::None,
            },
            updated_personal_message: match self.updated_personal_message {
                Option::Some(m) => Option::Some(m@),
                Option::None => Option::None,
            },
        }
    }
}

impl Default for TransactionEventResponse {
    /// The all-default record: every optional field absent.
    fn default() -> (r: Self)
        ensures
            r@.total_cost is None,
            r@.charging_priority is None,
            r@.id_token_info is None,
            r@.updated_personal_message is None,
    {
        TransactionEventResponse {
            total_cost: Option::None,
            charging_priority: Option::None,
            id_token_info: Option::None,
            updated_personal_message: Option::None,
        }
    }
}

impl TransactionEventResponseV {
    /// A well-formed model.
    pub open spec fn wf(self) -> bool {
        &&& self.charging_priority matches Option::Some(n) ==> i32::MIN <= n <= i32::MAX
        &&& self.id_token_info matches Option::Some(t) ==> t.wf()
    }
}

impl TransactionEventResponse {
    /// The tree an optional cost contributes: a raw decimal number.
    pub open spec fn spec_cost_val(o: Option<Decimal>) -> Option<JsonV> {
        match o {
            Option::Some(d) => Option::Some(JsonV::Num(d)),
            Option::None => Option::None,
        }
    }

    /// The tree an optional 32-bit number contributes.
    pub open spec fn spec_int_val(o: Option<int>) -> Option<JsonV> {
        match o {
            Option::Some(n) => Option::Some(JsonV::Num(Decimal { mantissa: n as i64, scale: 0 })),
            Option::None => Option::None,
        }
    }

    /// The tree an optional identity token info contributes.
    pub open spec fn spec_info_val(o: Option<IdTokenInfoV>) -> Option<JsonV> {
        match o {
            Option::Some(t) => Option::Some(IdTokenInfoType::spec_to_json(t)),
            Option::None => Option::None,
        }
    }

    /// The tree an optional personal message contributes.
    pub open spec fn spec_msg_val(o: Option<MessageContentV>) -> Option<JsonV> {
        match o {
            Option::Some(m) => Option::Some(MessageContentType::spec_to_json(m)),
            Option::None => Option::None,
        }
    }

    /// The members of the encoded record, in writing order.
    pub open spec fn spec_members(v: TransactionEventResponseV) -> Seq<(Seq<char>, JsonV)> {
        let t3 = opt_field(
            "updatedPersonalMessage"@,
            Self::spec_msg_val(v.updated_personal_message),
        ) + Seq::<(Seq<char>, JsonV)>::empty();
        let t2 = opt_field("idTokenInfo"@, Self::spec_info_val(v.id_token_info)) + t3;
        let t1 = opt_field("chargingPriority"@, Self::spec_int_val(v.charging_priority)) + t2;
        opt_field("totalCost"@, Self::spec_cost_val(v.total_cost)) + t1
    }

    /// The encoded tree of a model value.
    pub open spec fn spec_to_json(v: TransactionEventResponseV) -> JsonV {
        JsonV::Obj(Self::spec_members(v))
    }

    /// The optional nested identity token info of a tree.
    pub open spec fn spec_info(j: JsonV) -> Result<Option<IdTokenInfoV>, ErrorV> {
        match spec_get_obj(j, "idTokenInfo"@) {
            Option::None => Ok(Option::None),
            Option::Some(sub) => match IdTokenInfoType::spec_from_json(sub) {
                Ok(t) => Ok(Option::Some(t)),
                Err(e) => Err(e),
            },
        }
    }

    /// The optional nested personal message of a tree.
    pub open spec fn spec_msg(j: JsonV) -> Result<Option<MessageContentV>, ErrorV> {
        match spec_get_obj(j, "updatedPersonalMessage"@) {
            Option::None => Ok(Option::None),
            Option::Some(sub) => match MessageContentType::spec_from_json(sub) {
                Ok(m) => Ok(Option::Some(m)),
                Err(e) => Err(e),
            },
        }
    }

    /// The decoded model value of a tree, or the first failure.
    pub open spec fn spec_from_json(j: JsonV) -> Result<TransactionEventResponseV, ErrorV> {
        if !(j is Obj) {
            Err(
                ErrorV::TypeMismatch {
                    field: Seq::<char>::empty(),
                    expected: "object"@,
                    found: kind_of(j),
                },
            )
        } else {
            let r_cost = dec_opt_decimal(j, "totalCost"@);
            let r_prio = dec_opt_int(j, "chargingPriority"@, i32::MIN as int, i32::MAX as int);
            let r_info = Self::spec_info(j);
            let r_msg = Self::spec_msg(j);
            if r_cost is Err {
                Err(r_cost->Err_0)
            } else if r_prio is Err {
                Err(r_prio->Err_0)
            } else if r_info is Err {
                Err(r_info->Err_0)
            } else if r_msg is Err {
                Err(r_msg->Err_0)
            } else {
                Ok(
                    TransactionEventResponseV {
                        total_cost: r_cost->Ok_0,
                        charging_priority: r_prio->Ok_0,
                        id_token_info: r_info->Ok_0,
                        updated_personal_message: r_msg->Ok_0,
                    },
                )
            }
        }
    }

    /// Encode: one map-shaped record, absent optional fields omitted.
    pub fn to_json(&self) -> (r: Json)
        requires
            self@.wf(),
        ensures
            r@ == Self::spec_to_json(self@),
    {
        let mut fields: Vec<JsonField> = Vec::new();
        match &self.total_cost {
            Option::Some(d) => push_field(&mut fields, "totalCost", Json::Num(*d)),
            Option::None => {},
        }
        match &self.charging_priority {
            Option::Some(n) => push_field(
                &mut fields,
                "chargingPriority",
                Json::Num(Decimal { mantissa: *n as i64, scale: 0 }),
            ),
            Option::None => {},
        }
        match &self.id_token_info {
            Option::Some(t) => push_field(&mut fields, "idTokenInfo", t.to_json()),
            Option::None => {},
        }
        match &self.updated_personal_message {
            Option::Some(m) => push_field(&mut fields, "updatedPersonalMessage", m.to_json()),
            Option::None => {},
        }
        let r = Json::Obj(fields);
        proof {
            assert(crate::json::fields_view(fields@) =~= Self::spec_members(self@));
        }
        r
    }

    /// Decode, ignoring unknown keys; fails exactly as the model decoder says.
    pub fn from_json(j: &Json) -> (r: Result<Self, CodecError>)
        ensures
            match r {
                Ok(v) => Self::spec_from_json(j@) == Ok::<TransactionEventResponseV, ErrorV>(v@),
                Err(e) => Self::spec_from_json(j@) == Err::<TransactionEventResponseV, ErrorV>(e@),
            },
    {
        match j {
            Json::Obj(_) => {},
            _ => {
                return Err(
                    CodecError::TypeMismatch {
                        field: String::new(),
                        expected: "object".to_owned(),
                        found: j.kind().to_owned(),
                    },
                );
            },
        }
        let total_cost = match j.get_opt_decimal("totalCost") {
            Ok(v) => v,
            Err(e) => return Err(e),
        };
        let charging_priority = match j.get_opt_i32("chargingPriority") {
            Ok(v) => v,
            Err(e) => return Err(e),
        };
        let id_token_info = match j.get("idTokenInfo") {
            Option::None => Option::None,
            Option::Some(sub) => match IdTokenInfoType::from_json(sub) {
                Ok(t) => Option::Some(t),
                Err(e) => return Err(e),
            },
        };
        let updated_personal_message = match j.get("updatedPersonalMessage") {
            Option::None => Option::None,
            Option::Some(sub) => match MessageContentType::from_json(sub) {
                Ok(m) => Option::Some(m),
                Err(e) => return Err(e),
            },
        };
        Ok(
            TransactionEventResponse {
                total_cost,
                charging_priority,
                id_token_info,
                updated_personal_message,
            },
        )
    }
}

/// Decoding an encoded response yields the response back.
pub proof fn lemma_transaction_event_response_round_trip(v: TransactionEventResponseV)
    requires
        v.wf(),
    ensures
        TransactionEventResponse::spec_from_json(TransactionEventResponse::spec_to_json(v)) == Ok::<
            TransactionEventResponseV,
            ErrorV,
        >(v),
{
    reveal_strlit("totalCost");
    reveal_strlit("chargingPriority");
    reveal_strlit("idTokenInfo");
    reveal_strlit("updatedPersonalMessage");
    assert("totalCost"@.len() == 9);
    assert("chargingPriority"@.len() == 16);
    assert("idTokenInfo"@.len() == 11);
    assert("updatedPersonalMessage"@.len() == 22);
    let o_cost = TransactionEventResponse::spec_cost_val(v.total_cost);
    let o_prio = TransactionEventResponse::spec_int_val(v.charging_priority);
    let o_info = TransactionEventResponse::spec_info_val(v.id_token_info);
    let o_msg = TransactionEventResponse::spec_msg_val(v.updated_personal_message);
    let t3 = opt_field("updatedPersonalMessage"@, o_msg) + Seq::<(Seq<char>, JsonV)>::empty();
    let t2 = opt_field("idTokenInfo"@, o_info) + t3;
    let t1 = opt_field("chargingPriority"@, o_prio) + t2;
    lemma_get_opt("totalCost"@, o_cost, t1);
    lemma_skip_opt("chargingPriority"@, o_prio, t2, "totalCost"@);
    lemma_skip_opt("idTokenInfo"@, o_info, t3, "totalCost"@);
    lemma_skip_opt("updatedPersonalMessage"@, o_msg, Seq::<(Seq<char>, JsonV)>::empty(), "totalCost"@);
    lemma_skip_opt("totalCost"@, o_cost, t1, "chargingPriority"@);
    lemma_get_opt("chargingPriority"@, o_prio, t2);
    lemma_skip_opt("idTokenInfo"@, o_info, t3, "chargingPriority"@);
    lemma_skip_opt(
        "updatedPersonalMessage"@,
        o_msg,
        Seq::<(Seq<char>, JsonV)>::empty(),
        "chargingPriority"@,
    );
    lemma_skip_opt("totalCost"@, o_cost, t1, "idTokenInfo"@);
    lemma_skip_opt("chargingPriority"@, o_prio, t2, "idTokenInfo"@);
    lemma_get_opt("idTokenInfo"@, o_info, t3);
    lemma_skip_opt(
        "updatedPersonalMessage"@,
        o_msg,
        Seq::<(Seq<char>, JsonV)>::empty(),
        "idTokenInfo"@,
    );
    if v.id_token_info is Some {
        lemma_id_token_info_round_trip(v.id_token_info->0);
    }
    lemma_skip_opt("totalCost"@, o_cost, t1, "updatedPersonalMessage"@);
    lemma_skip_opt("chargingPriority"@, o_prio, t2, "updatedPersonalMessage"@);
    lemma_skip_opt("idTokenInfo"@, o_info, t3, "updatedPersonalMessage"@);
    lemma_get_opt("updatedPersonalMessage"@, o_msg, Seq::<(Seq<char>, JsonV)>::empty());
    if v.updated_personal_message is Some {
        lemma_message_content_round_trip(v.updated_personal_message->0);
    }
}

/// Decoding an encoded request yields the request back.
#[verifier::rlimit(100)]
pub proof fn lemma_transaction_event_request_round_trip(v: TransactionEventRequestV)
    requires
        v.wf(),
    ensures
        TransactionEventRequest::spec_from_json(TransactionEventRequest::spec_to_json(v))
            == Ok::<TransactionEventRequestV, ErrorV>(v),
{
    reveal_strlit("eventType");
    reveal_strlit("timestamp");
    reveal_strlit("triggerReason");
    reveal_strlit("seqNo");
    reveal_strlit("offline");
    reveal_strlit("numberOfPhasesUsed");
    reveal_strlit("cableMaxCurrent");
    reveal_strlit("reservationId");
    reveal_strlit("transactionInfo");
    reveal_strlit("idToken");
    reveal_strlit("evse");
    reveal_strlit("meterValue");
    assert("eventType"@.len() == 9 && "eventType"@[0] == 'e');
    assert("timestamp"@.len() == 9 && "timestamp"@[0] == 't');
    assert("triggerReason"@.len() == 13 && "triggerReason"@[0] == 't');
    assert("seqNo"@.len() == 5 && "seqNo"@[0] == 's');
    assert("offline"@.len() == 7 && "offline"@[0] == 'o');
    assert("numberOfPhasesUsed"@.len() == 18 && "numberOfPhasesUsed"@[0] == 'n');
    assert("cableMaxCurrent"@.len() == 15 && "cableMaxCurrent"@[0] == 'c');
    assert("reservationId"@.len() == 13 && "reservationId"@[0] == 'r');
    assert("transactionInfo"@.len() == 15 && "transactionInfo"@[0] == 't');
    assert("idToken"@.len() == 7 && "idToken"@[0] == 'i');
    assert("evse"@.len() == 4 && "evse"@[0] == 'e');
    assert("meterValue"@.len() == 10 && "meterValue"@[0] == 'm');
    let f_event = JsonV::Str(v.event_type.spec_tag());
    let f_ts = JsonV::Str(rfc3339_of(v.timestamp));
    let f_trigger = JsonV::Str(v.trigger_reason.spec_tag());
    let f_seq = JsonV::Num(Decimal { mantissa: v.seq_no as i64, scale: 0 });
    let o_off = TransactionEventRequest::spec_bool_val(v.offline);
    let o_phases = TransactionEventRequest::spec_int_val(v.number_of_phases_used);
    let o_cable = TransactionEventRequest::spec_int_val(v.cable_max_current);
    let o_resv = TransactionEventRequest::spec_int_val(v.reservation_id);
    let f_tx = TransactionType::spec_to_json(v.transaction_info);
    let o_idt = TransactionEventRequest::spec_id_token_val(v.id_token);
    let o_evse = TransactionEventRequest::spec_evse_val(v.evse);
    let o_meter = TransactionEventRequest::spec_meter_val(v.meter_value);
    let t11 = opt_field("meterValue"@, o_meter) + Seq::<(Seq<char>, JsonV)>::empty();
    let t10 = opt_field("evse"@, o_evse) + t11;
    let t9 = opt_field("idToken"@, o_idt) + t10;
    let t8 = req_field("transactionInfo"@, f_tx) + t9;
    let t7 = opt_field("reservationId"@, o_resv) + t8;
    let t6 = opt_field("cableMaxCurrent"@, o_cable) + t7;
    let t5 = opt_field("numberOfPhasesUsed"@, o_phases) + t6;
    let t4 = opt_field("offline"@, o_off) + t5;
    let t3 = req_field("seqNo"@, f_seq) + t4;
    let t2 = req_field("triggerReason"@, f_trigger) + t3;
    let t1 = req_field("timestamp"@, f_ts) + t2;
    // eventType
    lemma_get_req("eventType"@, f_event, t1);
    // timestamp
    lemma_skip_req("eventType"@, f_event, t1, "timestamp"@);
    lemma_get_req("timestamp"@, f_ts, t2);
    // triggerReason
    lemma_skip_req("eventType"@, f_event, t1, "triggerReason"@);
    lemma_skip_req("timestamp"@, f_ts, t2, "triggerReason"@);
    lemma_get_req("triggerReason"@, f_trigger, t3);
    // seqNo
    lemma_skip_req("eventType"@, f_event, t1, "seqNo"@);
    lemma_skip_req("timestamp"@, f_ts, t2, "seqNo"@);
    lemma_skip_req("triggerReason"@, f_trigger, t3, "seqNo"@);
    lemma_get_req("seqNo"@, f_seq, t4);
    // offline
    lemma_skip_req("eventType"@, f_event, t1, "offline"@);
    lemma_skip_req("timestamp"@, f_ts, t2, "offline"@);
    lemma_skip_req("triggerReason"@, f_trigger, t3, "offline"@);
    lemma_skip_req("seqNo"@, f_seq, t4, "offline"@);
    lemma_get_opt("offline"@, o_off, t5);
    lemma_skip_opt("numberOfPhasesUsed"@, o_phases, t6, "offline"@);
    lemma_skip_opt("cableMaxCurrent"@, o_cable, t7, "offline"@);
    lemma_skip_opt("reservationId"@, o_resv, t8, "offline"@);
    lemma_skip_req("transactionInfo"@, f_tx, t9, "offline"@);
    lemma_skip_opt("idToken"@, o_idt, t10, "offline"@);
    lemma_skip_opt("evse"@, o_evse, t11, "offline"@);
    lemma_skip_opt("meterValue"@, o_meter, Seq::<(Seq<char>, JsonV)>::empty(), "offline"@);
    // numberOfPhasesUsed
    lemma_skip_req("eventType"@, f_event, t1, "numberOfPhasesUsed"@);
    lemma_skip_req("timestamp"@, f_ts, t2, "numberOfPhasesUsed"@);
    lemma_skip_req("triggerReason"@, f_trigger, t3, "numberOfPhasesUsed"@);
    lemma_skip_req("seqNo"@, f_seq, t4, "numberOfPhasesUsed"@);
    lemma_skip_opt("offline"@, o_off, t5, "numberOfPhasesUsed"@);
    lemma_get_opt("numberOfPhasesUsed"@, o_phases, t6);
    lemma_skip_opt("cableMaxCurrent"@, o_cable, t7, "numberOfPhasesUsed"@);
    lemma_skip_opt("reservationId"@, o_resv, t8, "numberOfPhasesUsed"@);
    lemma_skip_req("transactionInfo"@, f_tx, t9, "numberOfPhasesUsed"@);
    lemma_skip_opt("idToken"@, o_idt, t10, "numberOfPhasesUsed"@);
    lemma_skip_opt("evse"@, o_evse, t11, "numberOfPhasesUsed"@);
    lemma_skip_opt("meterValue"@, o_meter, Seq::<(Seq<char>, JsonV)>::empty(), "numberOfPhasesUsed"@);
    // cableMaxCurrent
    lemma_skip_req("eventType"@, f_event, t1, "cableMaxCurrent"@);
    lemma_skip_req("timestamp"@, f_ts, t2, "cableMaxCurrent"@);
    lemma_skip_req("triggerReason"@, f_trigger, t3, "cableMaxCurrent"@);
    lemma_skip_req("seqNo"@, f_seq, t4, "cableMaxCurrent"@);
    lemma_skip_opt("offline"@, o_off, t5, "cableMaxCurrent"@);
    lemma_skip_opt("numberOfPhasesUsed"@, o_phases, t6, "cableMaxCurrent"@);
    lemma_get_opt("cableMaxCurrent"@, o_cable, t7);
    lemma_skip_opt("reservationId"@, o_resv, t8, "cableMaxCurrent"@);
    lemma_skip_req("transactionInfo"@, f_tx, t9, "cableMaxCurrent"@);
    lemma_skip_opt("idToken"@, o_idt, t10, "cableMaxCurrent"@);
    lemma_skip_opt("evse"@, o_evse, t11, "cableMaxCurrent"@);
    lemma_skip_opt("meterValue"@, o_meter, Seq::<(Seq<char>, JsonV)>::empty(), "cableMaxCurrent"@);
    // reservationId
    lemma_skip_req("eventType"@, f_event, t1, "reservationId"@);
    lemma_skip_req("timestamp"@, f_ts, t2, "reservationId"@);
    lemma_skip_req("triggerReason"@, f_trigger, t3, "reservationId"@);
    lemma_skip_req("seqNo"@, f_seq, t4, "reservationId"@);
    lemma_skip_opt("offline"@, o_off, t5, "reservationId"@);
    lemma_skip_opt("numberOfPhasesUsed"@, o_phases, t6, "reservationId"@);
    lemma_skip_opt("cableMaxCurrent"@, o_cable, t7, "reservationId"@);
    lemma_get_opt("reservationId"@, o_resv, t8);
    lemma_skip_req("transactionInfo"@, f_tx, t9, "reservationId"@);
    lemma_skip_opt("idToken"@, o_idt, t10, "reservationId"@);
    lemma_skip_opt("evse"@, o_evse, t11, "reservationId"@);
    lemma_skip_opt("meterValue"@, o_meter, Seq::<(Seq<char>, JsonV)>::empty(), "reservationId"@);
    // transactionInfo
    lemma_skip_req("eventType"@, f_event, t1, "transactionInfo"@);
    lemma_skip_req("timestamp"@, f_ts, t2, "transactionInfo"@);
    lemma_skip_req("triggerReason"@, f_trigger, t3, "transactionInfo"@);
    lemma_skip_req("seqNo"@, f_seq, t4, "transactionInfo"@);
    lemma_skip_opt("offline"@, o_off, t5, "transactionInfo"@);
    lemma_skip_opt("numberOfPhasesUsed"@, o_phases, t6, "transactionInfo"@);
    lemma_skip_opt("cableMaxCurrent"@, o_cable, t7, "transactionInfo"@);
    lemma_skip_opt("reservationId"@, o_resv, t8, "transactionInfo"@);
    lemma_get_req("transactionInfo"@, f_tx, t9);
    // idToken
    lemma_skip_req("eventType"@, f_event, t1, "idToken"@);
    lemma_skip_req("timestamp"@, f_ts, t2, "idToken"@);
    lemma_skip_req("triggerReason"@, f_trigger, t3, "idToken"@);
    lemma_skip_req("seqNo"@, f_seq, t4, "idToken"@);
    lemma_skip_opt("offline"@, o_off, t5, "idToken"@);
    lemma_skip_opt("numberOfPhasesUsed"@, o_phases, t6, "idToken"@);
    lemma_skip_opt("cableMaxCurrent"@, o_cable, t7, "idToken"@);
    lemma_skip_opt("reservationId"@, o_resv, t8, "idToken"@);
    lemma_skip_req("transactionInfo"@, f_tx, t9, "idToken"@);
    lemma_get_opt("idToken"@, o_idt, t10);
    lemma_skip_opt("evse"@, o_evse, t11, "idToken"@);
    lemma_skip_opt("meterValue"@, o_meter, Seq::<(Seq<char>, JsonV)>::empty(), "idToken"@);
    // evse
    lemma_skip_req("eventType"@, f_event, t1, "evse"@);
    lemma_skip_req("timestamp"@, f_ts, t2, "evse"@);
    lemma_skip_req("triggerReason"@, f_trigger, t3, "evse"@);
    lemma_skip_req("seqNo"@, f_seq, t4, "evse"@);
    lemma_skip_opt("offline"@, o_off, t5, "evse"@);
    lemma_skip_opt("numberOfPhasesUsed"@, o_phases, t6, "evse"@);
    lemma_skip_opt("cableMaxCurrent"@, o_cable, t7, "evse"@);
    lemma_skip_opt("reservationId"@, o_resv, t8, "evse"@);
    lemma_skip_req("transactionInfo"@, f_tx, t9, "evse"@);
    lemma_skip_opt("idToken"@, o_idt, t10, "evse"@);
    lemma_get_opt("evse"@, o_evse, t11);
    lemma_skip_opt("meterValue"@, o_meter, Seq::<(Seq<char>, JsonV)>::empty(), "evse"@);
    // meterValue
    lemma_skip_req("eventType"@, f_event, t1, "meterValue"@);
    lemma_skip_req("timestamp"@, f_ts, t2, "meterValue"@);
    lemma_skip_req("triggerReason"@, f_trigger, t3, "meterValue"@);
    lemma_skip_req("seqNo"@, f_seq, t4, "meterValue"@);
    lemma_skip_opt("offline"@, o_off, t5, "meterValue"@);
    lemma_skip_opt("numberOfPhasesUsed"@, o_phases, t6, "meterValue"@);
    lemma_skip_opt("cableMaxCurrent"@, o_cable, t7, "meterValue"@);
    lemma_skip_opt("reservationId"@, o_resv, t8, "meterValue"@);
    lemma_skip_req("transactionInfo"@, f_tx, t9, "meterValue"@);
    lemma_skip_opt("idToken"@, o_idt, t10, "meterValue"@);
    lemma_skip_opt("evse"@, o_evse, t11, "meterValue"@);
    lemma_get_opt("meterValue"@, o_meter, Seq::<(Seq<char>, JsonV)>::empty());
    lemma_transaction_event_round_trip(v.event_type);
    lemma_instant_round_trip(v.timestamp);
    lemma_trigger_reason_round_trip(v.trigger_reason);
    lemma_transaction_round_trip(v.transaction_info);
    if v.id_token is Some {
        lemma_id_token_round_trip(v.id_token->0);
    }
    if v.evse is Some {
        lemma_evse_round_trip(v.evse->0);
    }
    if v.meter_value is Some {
        lemma_meter_seq_round_trip(v.meter_value->0);
    }
}

/// The member list, read as the encoder appends it from the left, equals the
/// declared suffix-structured member list.
proof fn lemma_members_reassociate(
    v: TransactionEventRequestV,
    s0: Seq<(Seq<char>, JsonV)>,
    s1: Seq<(Seq<char>, JsonV)>,
    s2: Seq<(Seq<char>, JsonV)>,
    s3: Seq<(Seq<char>, JsonV)>,
    s4: Seq<(Seq<char>, JsonV)>,
    s5: Seq<(Seq<char>, JsonV)>,
    s6: Seq<(Seq<char>, JsonV)>,
    s7: Seq<(Seq<char>, JsonV)>,
    s8: Seq<(Seq<char>, JsonV)>,
    s9: Seq<(Seq<char>, JsonV)>,
    s10: Seq<(Seq<char>, JsonV)>,
    s11: Seq<(Seq<char>, JsonV)>,
)
    requires
        s0 == req_field("eventType"@, JsonV::Str(v.event_type.spec_tag())),
        s1 == req_field("timestamp"@, JsonV::Str(rfc3339_of(v.timestamp))),
        s2 == req_field("triggerReason"@, JsonV::Str(v.trigger_reason.spec_tag())),
        s3 == req_field("seqNo"@, JsonV::Num(Decimal { mantissa: v.seq_no as i64, scale: 0 })),
        s4 == opt_field("offline"@, TransactionEventRequest::spec_bool_val(v.offline)),
        s5 == opt_field(
            "numberOfPhasesUsed"@,
            TransactionEventRequest::spec_int_val(v.number_of_phases_used),
        ),
        s6 == opt_field(
            "cableMaxCurrent"@,
            TransactionEventRequest::spec_int_val(v.cable_max_current),
        ),
        s7 == opt_field("reservationId"@, TransactionEventRequest::spec_int_val(v.reservation_id)),
        s8 == req_field("transactionInfo"@, TransactionType::spec_to_json(v.transaction_info)),
        s9 == opt_field("idToken"@, TransactionEventRequest::spec_id_token_val(v.id_token)),
        s10 == opt_field("evse"@, TransactionEventRequest::spec_evse_val(v.evse)),
        s11 == opt_field("meterValue"@, TransactionEventRequest::spec_meter_val(v.meter_value)),
    ensures
        TransactionEventRequest::spec_members(v) == s0 + s1 + s2 + s3 + s4 + s5 + s6 + s7 + s8 + s9
            + s10 + s11,
{
    broadcast use vstd::seq_lib::group_seq_lib_default;

    let r11 = s11 + Seq::<(Seq<char>, JsonV)>::empty();
    let r10 = s10 + r11;
    let r9 = s9 + r10;
    let r8 = s8 + r9;
    let r7 = s7 + r8;
    let r6 = s6 + r7;
    let r5 = s5 + r6;
    let r4 = s4 + r5;
    let r3 = s3 + r4;
    let r2 = s2 + r3;
    let r1 = s1 + r2;
    assert(TransactionEventRequest::spec_members(v) == s0 + r1);
    vstd::seq_lib::lemma_concat_associative(s0, s1, r2);
    vstd::seq_lib::lemma_concat_associative(s0 + s1, s2, r3);
    vstd::seq_lib::lemma_concat_associative(s0 + s1 + s2, s3, r4);
    vstd::seq_lib::lemma_concat_associative(s0 + s1 + s2 + s3, s4, r5);
    vstd::seq_lib::lemma_concat_associative(s0 + s1 + s2 + s3 + s4, s5, r6);
    vstd::seq_lib::lemma_concat_associative(s0 + s1 + s2 + s3 + s4 + s5, s6, r7);
    vstd::seq_lib::lemma_concat_associative(s0 + s1 + s2 + s3 + s4 + s5 + s6, s7, r8);
    vstd::seq_lib::lemma_concat_associative(s0 + s1 + s2 + s3 + s4 + s5 + s6 + s7, s8, r9);
    vstd::seq_lib::lemma_concat_associative(s0 + s1 + s2 + s3 + s4 + s5 + s6 + s7 + s8, s9, r10);
    vstd::seq_lib::lemma_concat_associative(
        s0 + s1 + s2 + s3 + s4 + s5 + s6 + s7 + s8 + s9,
        s10,
        r11,
    );
    assert(s0 + s1 + s2 + s3 + s4 + s5 + s6 + s7 + s8 + s9 + s10 + r11 =~= s0 + s1 + s2 + s3 + s4
        + s5 + s6 + s7 + s8 + s9 + s10 + s11);
}

} // verus!
