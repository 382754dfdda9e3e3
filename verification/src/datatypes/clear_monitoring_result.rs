//! Result of clearing one variable monitor.

use vstd::prelude::*;

use crate::codec::dec_req_int;
use crate::codec::dec_req_str;
use crate::codec::lemma_get_opt;
use crate::codec::lemma_get_req;
use crate::codec::lemma_skip_opt;
use crate::codec::lemma_skip_req;
use crate::codec::opt_field;
use crate::codec::req_field;
use crate::datatypes::status_info::StatusInfoType;
use crate::datatypes::status_info::StatusInfoV;
use crate::decimal::Decimal;
use crate::enums::lemma_clear_monitoring_status_round_trip;
use crate::enums::ClearMonitoringStatusEnumType;
use crate::error::CodecError;
use crate::error::ErrorV;
use crate::json::kind_of;
use crate::json::push_field;
use crate::json::spec_get_obj;
use crate::json::Json;
use crate::json::JsonField;
use crate::json::JsonV;

verus! {

/// Outcome of clearing the monitor with one numeric id.
#[derive(Debug, Clone, PartialEq)]
pub struct ClearMonitoringResultType {
    pub status: ClearMonitoringStatusEnumType,
    pub id: i64,
    pub status_info: Option<StatusInfoType>,
}

/// The mathematical model of a [`ClearMonitoringResultType`].
pub struct ClearMonitoringResultV {
    pub status: ClearMonitoringStatusEnumType,
    pub id: int,
    pub status_info: Option<StatusInfoV>,
}

impl View for ClearMonitoringResultType {
    type V = ClearMonitoringResultV;

    open spec fn view(&self) -> ClearMonitoringResultV {
        ClearMonitoringResultV {
            status: self.status,
            id: self.id as int,
            status_info: match self.status_info {
                Option::Some(s) => Option::Some(s@),
                Option::None => Option::None,
            },
        }
    }
}

impl ClearMonitoringResultV {
    /// A well-formed model: the id fits in 64 bits.
    pub open spec fn wf(self) -> bool {
        i64::MIN <= self.id <= i64::MAX
    }
}

impl ClearMonitoringResultType {
    /// The tree an optional status-info record contributes.
    pub open spec fn spec_info_val(o: Option<StatusInfoV>) -> Option<JsonV> {
        match o {
            Option::Some(s) => Option::Some(StatusInfoType::spec_to_json(s)),
            Option::None => Option::None,
        }
    }

    /// The members of the encoded record, in writing order.
    pub open spec fn spec_members(v: ClearMonitoringResultV) -> Seq<(Seq<char>, JsonV)> {
        let t2 = opt_field("statusInfo"@, Self::spec_info_val(v.status_info)) + Seq::<(
            Seq<char>,
            JsonV,
        )>::empty();
        let t1 = req_field("id"@, JsonV::Num(Decimal { mantissa: v.id as i64, scale: 0 })) + t2;
        req_field("status"@, JsonV::Str(v.status.spec_tag())) + t1
    }

    /// The encoded tree of a model value.
    pub open spec fn spec_to_json(v: ClearMonitoringResultV) -> JsonV {
        JsonV::Obj(Self::spec_members(v))
    }

    /// The optional nested status info of a tree.
    pub open spec fn spec_info(j: JsonV) -> Result<Option<StatusInfoV>, ErrorV> {
        match spec_get_obj(j, "statusInfo"@) {
            Option::None => Ok(Option::None),
            Option::Some(sub) => match StatusInfoType::spec_from_json(sub) {
                Ok(s) => Ok(Option::Some(s)),
                Err(e) => Err(e),
            },
        }
    }

    /// The decoded model value of a tree, or the first failure.
    pub open spec fn spec_from_json(j: JsonV) -> Result<ClearMonitoringResultV, ErrorV> {
        if !(j is Obj) {
            Err(
                ErrorV::TypeMismatch {
                    field: Seq::<char>::empty(),
                    expected: "object"@,
                    found: kind_of(j),
                },
            )
        } else {
            let r_tag = dec_req_str(j, "status"@);
            let r_id = dec_req_int(j, "id"@, i64::MIN as int, i64::MAX as int);
            let r_info = Self::spec_info(j);
            if r_tag is Err {
                Err(r_tag->Err_0)
            } else if ClearMonitoringStatusEnumType::spec_of_tag(r_tag->Ok_0) is None {
                Err(
                    ErrorV::UnknownEnumerationValue {
                        enum_name: "ClearMonitoringStatusEnumType"@,
                        received_tag: r_tag->Ok_0,
                    },
                )
            } else if r_id is Err {
                Err(r_id->Err_0)
            } else if r_info is Err {
                Err(r_info->Err_0)
            } else {
                Ok(
                    ClearMonitoringResultV {
                        status: ClearMonitoringStatusEnumType::spec_of_tag(r_tag->Ok_0)->Some_0,
                        id: r_id->Ok_0,
                        status_info: r_info->Ok_0,
                    },
                )
            }
        }
    }

    /// Encode: one map-shaped record, absent optional fields omitted.
    pub fn to_json(&self) -> (r: Json)
        ensures
            r@ == Self::spec_to_json(self@),
    {
        let mut fields: Vec<JsonField> = Vec::new();
        push_field(&mut fields, "status", Json::Str(self.status.tag().to_owned()));
        push_field(&mut fields, "id", Json::Num(Decimal { mantissa: self.id, scale: 0 }));
        match &self.status_info {
            Option::Some(s) => push_field(&mut fields, "statusInfo", s.to_json()),
            Option::None => {},
        }
        let r = Json::Obj(fields);
        proof {
            assert(crate::json::fields_view(fields@) =~= Self::spec_members(self@));
        }
        r
    }

    /// Decode, ignoring unknown keys; fails exactly as the model decoder says.
    pub fn from_json(j: &Json) -> (r: Result<Self, CodecError>)
        ensures
            match r {
                Ok(v) => Self::spec_from_json(j@) == Ok::<ClearMonitoringResultV, ErrorV>(v@),
                Err(e) => Self::spec_from_json(j@) == Err::<ClearMonitoringResultV, ErrorV>(e@),
            },
    {
        match j {
            Json::Obj(_) => {},
            _ => {
                return Err(
                    CodecError::TypeMismatch {
                        field: String::new(),
                        expected: "object".to_owned(),
                        found: j.kind().to_owned(),
                    },
                );
            },
        }
        let tag = match j.get_req_str("status") {
            Ok(v) => v,
            Err(e) => return Err(e),
        };
        let status = match ClearMonitoringStatusEnumType::from_tag(tag.as_str()) {
            Option::Some(s) => s,
            Option::None => {
                return Err(
                    CodecError::UnknownEnumerationValue {
                        enum_name: "ClearMonitoringStatusEnumType".to_owned(),
                        received_tag: tag,
                    },
                );
            },
        };
        let id = match j.get_req_i64("id") {
            Ok(v) => v,
            Err(e) => return Err(e),
        };
        let status_info = match j.get("statusInfo") {
            Option::None => Option::None,
            Option::Some(sub) => match StatusInfoType::from_json(sub) {
                Ok(s) => Option::Some(s),
                Err(e) => return Err(e),
            },
        };
        Ok(ClearMonitoringResultType { status, id, status_info })
    }
}

/// Decoding an encoded record yields the record back.
pub proof fn lemma_clear_monitoring_result_round_trip(v: ClearMonitoringResultV)
    requires
        v.wf(),
    ensures
        ClearMonitoringResultType::spec_from_json(ClearMonitoringResultType::spec_to_json(v))
            == Ok::<ClearMonitoringResultV, ErrorV>(v),
{
    reveal_strlit("status");
    reveal_strlit("id");
    reveal_strlit("statusInfo");
    assert("status"@.len() == 6);
    assert("id"@.len() == 2);
    assert("statusInfo"@.len() == 10);
    let f_status = JsonV::Str(v.status.spec_tag());
    let f_id = JsonV::Num(Decimal { mantissa: v.id as i64, scale: 0 });
    let o_info = ClearMonitoringResultType::spec_info_val(v.status_info);
    let t2 = opt_field("statusInfo"@, o_info) + Seq::<(Seq<char>, JsonV)>::empty();
    let t1 = req_field("id"@, f_id) + t2;
    lemma_get_req("status"@, f_status, t1);
    lemma_clear_monitoring_status_round_trip(v.status);
    lemma_skip_req("status"@, f_status, t1, "id"@);
    lemma_get_req("id"@, f_id, t2);
    lemma_skip_req("status"@, f_status, t1, "statusInfo"@);
    lemma_skip_req("id"@, f_id, t2, "statusInfo"@);
    lemma_get_opt("statusInfo"@, o_info, Seq::<(Seq<char>, JsonV)>::empty());
    if v.status_info is Some {
        crate::datatypes::status_info::lemma_status_info_round_trip(v.status_info->0);
    }
}

} // verus!
