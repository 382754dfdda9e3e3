//! Configuration of a log upload: where to send it and which span to cover.

use vstd::prelude::*;

use crate::codec::dec_opt_instant;
use crate::codec::dec_req_str;
use crate::codec::lemma_get_opt;
use crate::codec::lemma_get_req;
use crate::codec::lemma_skip_opt;
use crate::codec::lemma_skip_req;
use crate::codec::opt_field;
use crate::codec::req_field;
use crate::error::CodecError;
use crate::error::ErrorV;
use crate::instant::lemma_instant_round_trip;
use crate::instant::rfc3339_of;
use crate::instant::Instant;
use crate::json::kind_of;
use crate::json::push_field;
use crate::json::Json;
use crate::json::JsonField;
use crate::json::JsonV;

verus! {

/// Where to upload a log and which entries to include.
#[derive(Debug, Clone, PartialEq)]
pub struct LogParametersType {
    pub remote_location: String,
    pub oldest_timestamp: Option<Instant>,
    pub latest_timestamp: Option<Instant>,
}

/// The mathematical model of a [`LogParametersType`].
pub struct LogParametersV {
    pub remote_location: Seq<char>,
    pub oldest_timestamp: Option<Instant>,
    pub latest_timestamp: Option<Instant>,
}

impl View for LogParametersType {
    type V = LogParametersV;

    open spec fn view(&self) -> LogParametersV {
        LogParametersV {
            remote_location: self.remote_location@,
            oldest_timestamp: self.oldest_timestamp,
            latest_timestamp: self.latest_timestamp,
        }
    }
}

impl Default for LogParametersType {
    /// The all-default record.
    fn default() -> (r: Self)
        ensures
            r@.remote_location == Seq::<char>::empty(),
            r@.oldest_timestamp is None,
            r@.latest_timestamp is None,
    {
        LogParametersType {
            remote_location: String::new(),
            oldest_timestamp: Option::None,
            latest_timestamp: Option::None,
        }
    }
}

impl LogParametersV {
    /// A well-formed model: real instants when present.
    pub open spec fn wf(self) -> bool {
        &&& self.oldest_timestamp matches Option::Some(i) ==> i.wf()
        &&& self.latest_timestamp matches Option::Some(i) ==> i.wf()
    }
}

impl LogParametersType {
    /// The tree an optional instant contributes.
    pub open spec fn spec_instant_val(o: Option<Instant>) -> Option<JsonV> {
        match o {
            Option::Some(i) => Option::Some(JsonV::Str(rfc3339_of(i))),
            Option::None => Option::None,
        }
    }

    /// The members of the encoded record, in writing order.
    pub open spec fn spec_members(v: LogParametersV) -> Seq<(Seq<char>, JsonV)> {
        let t2 = opt_field("latestTimestamp"@, Self::spec_instant_val(v.latest_timestamp)) + Seq::<
            (Seq<char>, JsonV),
        >::empty();
        let t1 = opt_field("oldestTimestamp"@, Self::spec_instant_val(v.oldest_timestamp)) + t2;
        req_field("remoteLocation"@, JsonV::Str(v.remote_location)) + t1
    }

    /// The encoded tree of a model value.
    pub open spec fn spec_to_json(v: LogParametersV) -> JsonV {
        JsonV::Obj(Self::spec_members(v))
    }

    /// The decoded model value of a tree, or the first failure.
    pub open spec fn spec_from_json(j: JsonV) -> Result<LogParametersV, ErrorV> {
        if !(j is Obj) {
            Err(
                ErrorV::TypeMismatch {
                    field: Seq::<char>::empty(),
                    expected: "object"@,
                    found: kind_of(j),
                },
            )
        } else {
            let r_loc = dec_req_str(j, "remoteLocation"@);
            let r_old = dec_opt_instant(j, "oldestTimestamp"@);
            let r_new = dec_opt_instant(j, "latestTimestamp"@);
            if r_loc is Err {
                Err(r_loc->Err_0)
            } else if r_old is Err {
                Err(r_old->Err_0)
            } else if r_new is Err {
                Err(r_new->Err_0)
            } else {
                Ok(
                    LogParametersV {
                        remote_location: r_loc->Ok_0,
                        oldest_timestamp: r_old->Ok_0,
                        latest_timestamp: r_new->Ok_0,
                    },
                )
            }
        }
    }

    /// Encode: one map-shaped record, absent optional fields omitted.
    pub fn to_json(&self) -> (r: Json)
        requires
            self@.wf(),
        ensures
            r@ == Self::spec_to_json(self@),
    {
        let mut fields: Vec<JsonField> = Vec::new();
        push_field(&mut fields, "remoteLocation", Json::Str(self.remote_location.clone()));
        match &self.oldest_timestamp {
            Option::Some(i) => push_field(&mut fields, "oldestTimestamp", Json::Str(i.to_rfc3339())),
            Option::None => {},
        }
        match &self.latest_timestamp {
            Option::Some(i) => push_field(&mut fields, "latestTimestamp", Json::Str(i.to_rfc3339())),
            Option::None => {},
        }
        let r = Json::Obj(fields);
        proof {
            assert(crate::json::fields_view(fields@) =~= Self::spec_members(self@));
        }
        r
    }

    /// Decode, ignoring unknown keys; fails exactly as the model decoder says.
    pub fn from_json(j: &Json) -> (r: Result<Self, CodecError>)
        ensures
            match r {
                Ok(v) => Self::spec_from_json(j@) == Ok::<LogParametersV, ErrorV>(v@),
                Err(e) => Self::spec_from_json(j@) == Err::<LogParametersV, ErrorV>(e@),
            },
    {
        match j {
            Json::Obj(_) => {},
            _ => {
                return Err(
                    CodecError::TypeMismatch {
                        field: String::new(),
                        expected: "object".to_owned(),
                        found: j.kind().to_owned(),
                    },
                );
            },
        }
        let remote_location = match j.get_req_str("remoteLocation") {
            Ok(v) => v,
            Err(e) => return Err(e),
        };
        let oldest_timestamp = match j.get_opt_instant("oldestTimestamp") {
            Ok(v) => v,
            Err(e) => return Err(e),
        };
        let latest_timestamp = match j.get_opt_instant("latestTimestamp") {
            Ok(v) => v,
            Err(e) => return Err(e),
        };
        Ok(LogParametersType { remote_location, oldest_timestamp, latest_timestamp })
    }
}

/// Decoding an encoded record yields the record back.
pub proof fn lemma_log_parameters_round_trip(v: LogParametersV)
    requires
        v.wf(),
    ensures
        LogParametersType::spec_from_json(LogParametersType::spec_to_json(v)) == Ok::<
            LogParametersV,
            ErrorV,
        >(v),
{
    reveal_strlit("remoteLocation");
    reveal_strlit("oldestTimestamp");
    reveal_strlit("latestTimestamp");
    assert("remoteLocation"@.len() == 14);
    assert("oldestTimestamp"@.len() == 15 && "oldestTimestamp"@[0] == 'o');
    assert("latestTimestamp"@.len() == 15 && "latestTimestamp"@[0] == 'l');
    let f_loc = JsonV::Str(v.remote_location);
    let o_old = LogParametersType::spec_instant_val(v.oldest_timestamp);
    let o_new = LogParametersType::spec_instant_val(v.latest_timestamp);
    let t2 = opt_field("latestTimestamp"@, o_new) + Seq::<(Seq<char>, JsonV)>::empty();
    let t1 = opt_field("oldestTimestamp"@, o_old) + t2;
    lemma_get_req("remoteLocation"@, f_loc, t1);
    lemma_skip_req("remoteLocation"@, f_loc, t1, "oldestTimestamp"@);
    lemma_get_opt("oldestTimestamp"@, o_old, t2);
    lemma_skip_opt("latestTimestamp"@, o_new, Seq::<(Seq<char>, JsonV)>::empty(), "oldestTimestamp"@);
    if v.oldest_timestamp is Some {
        lemma_instant_round_trip(v.oldest_timestamp->0);
    }
    lemma_skip_req("remoteLocation"@, f_loc, t1, "latestTimestamp"@);
    lemma_skip_opt("oldestTimestamp"@, o_old, t2, "latestTimestamp"@);
    lemma_get_opt("latestTimestamp"@, o_new, Seq::<(Seq<char>, JsonV)>::empty());
    if v.latest_timestamp is Some {
        lemma_instant_round_trip(v.latest_timestamp->0);
    }
}

} // verus!
