//! A firmware image that can be loaded onto the charging station.

use vstd::prelude::*;

use crate::codec::dec_opt_instant;
use crate::codec::dec_opt_str;
use crate::codec::dec_req_instant;
use crate::codec::dec_req_str;
use crate::codec::lemma_get_opt;
use crate::codec::lemma_get_req;
use crate::codec::lemma_skip_opt;
use crate::codec::lemma_skip_req;
use crate::codec::opt_field;
use crate::codec::req_field;
use crate::error::CodecError;
use crate::error::ErrorV;
use crate::instant::lemma_instant_round_trip;
use crate::instant::rfc3339_of;
use crate::instant::Instant;
use crate::json::kind_of;
use crate::json::push_field;
use crate::json::Json;
use crate::json::JsonField;
use crate::json::JsonV;

verus! {

/// A firmware descriptor: where to fetch it, when to retrieve and install
/// it, and optional signing metadata.
#[derive(Debug, Clone, PartialEq)]
pub struct FirmwareType {
    pub location: String,
    pub retrieve_date_time: Instant,
    pub install_date_time: Option<Instant>,
    pub signing_certificate: Option<String>,
    pub signature: Option<String>,
}

/// The mathematical model of a [`FirmwareType`].
pub struct FirmwareV {
    pub location: Seq<char>,
    pub retrieve_date_time: Instant,
    pub install_date_time: Option<Instant>,
    pub signing_certificate: Option<Seq<char>>,
    pub signature: Option<Seq<char>>,
}

impl View for FirmwareType {
    type V = FirmwareV;

    open spec fn view(&self) -> FirmwareV {
        FirmwareV {
            location: self.location@,
            retrieve_date_time: self.retrieve_date_time,
            install_date_time: self.install_date_time,
            signing_certificate: match self.signing_certificate {
                Option::Some(s) => Option::Some(s@),
                Option::None => Option::None,
            },
            signature: match self.signature {
                Option::Some(s) => Option::Some(s@),
                Option::None => Option::None,
            },
        }
    }
}

impl FirmwareV {
    /// A well-formed model: real instants.
    pub open spec fn wf(self) -> bool {
        &&& self.retrieve_date_time.wf()
        &&& self.install_date_time matches Option::Some(i) ==> i.wf()
    }
}

impl FirmwareType {
    /// The tree an optional instant contributes.
    pub open spec fn spec_instant_val(o: Option<Instant>) -> Option<JsonV> {
        match o {
            Option::Some(i) => Option::Some(JsonV::Str(rfc3339_of(i))),
            Option::None => Option::None,
        }
    }

    /// The tree an optional string contributes.
    pub open spec fn spec_str_val(o: Option<Seq<char>>) -> Option<JsonV> {
        match o {
            Option::Some(s) => Option::Some(JsonV::Str(s)),
            Option::None => Option::None,
        }
    }

    /// The members of the encoded record, in writing order.
    pub open spec fn spec_members(v: FirmwareV) -> Seq<(Seq<char>, JsonV)> {
        let t4 = opt_field("signature"@, Self::spec_str_val(v.signature)) + Seq::<(
            Seq<char>,
            JsonV,
        )>::empty();
        let t3 = opt_field("signingCertificate"@, Self::spec_str_val(v.signing_certificate)) + t4;
        let t2 = opt_field("installDateTime"@, Self::spec_instant_val(v.install_date_time)) + t3;
        let t1 = req_field("retrieveDateTime"@, JsonV::Str(rfc3339_of(v.retrieve_date_time))) + t2;
        req_field("location"@, JsonV::Str(v.location)) + t1
    }

    /// The encoded tree of a model value.
    pub open spec fn spec_to_json(v: FirmwareV) -> JsonV {
        JsonV::Obj(Self::spec_members(v))
    }

    /// The decoded model value of a tree, or the first failure.
    pub open spec fn spec_from_json(j: JsonV) -> Result<FirmwareV, ErrorV> {
        if !(j is Obj) {
            Err(
                ErrorV::TypeMismatch {
                    field: Seq::<char>::empty(),
                    expected: "object"@,
                    found: kind_of(j),
                },
            )
        } else {
            let r_loc = dec_req_str(j, "location"@);
            let r_ret = dec_req_instant(j, "retrieveDateTime"@);
            let r_inst = dec_opt_instant(j, "installDateTime"@);
            let r_cert = dec_opt_str(j, "signingCertificate"@);
            let r_sig = dec_opt_str(j, "signature"@);
            if r_loc is Err {
                Err(r_loc->Err_0)
            } else if r_ret is Err {
                Err(r_ret->Err_0)
            } else if r_inst is Err {
                Err(r_inst->Err_0)
            } else if r_cert is Err {
                Err(r_cert->Err_0)
            } else if r_sig is Err {
                Err(r_sig->Err_0)
            } else {
                Ok(
                    FirmwareV {
                        location: r_loc->Ok_0,
                        retrieve_date_time: r_ret->Ok_0,
                        install_date_time: r_inst->Ok_0,
                        signing_certificate: r_cert->Ok_0,
                        signature: r_sig->Ok_0,
                    },
                )
            }
        }
    }

    /// Encode: one map-shaped record, absent optional fields omitted.
    pub fn to_json(&self) -> (r: Json)
        requires
            self@.wf(),
        ensures
            r@ == Self::spec_to_json(self@),
    {
        let mut fields: Vec<JsonField> = Vec::new();
        push_field(&mut fields, "location", Json::Str(self.location.clone()));
        push_field(
            &mut fields,
            "retrieveDateTime",
            Json::Str(self.retrieve_date_time.to_rfc3339()),
        );
        match &self.install_date_time {
            Option::Some(i) => push_field(&mut fields, "installDateTime", Json::Str(i.to_rfc3339())),
            Option::None => {},
        }
        match &self.signing_certificate {
            Option::Some(s) => push_field(&mut fields, "signingCertificate", Json::Str(s.clone())),
            Option::None => {},
        }
        match &self.signature {
            Option::Some(s) => push_field(&mut fields, "signature", Json::Str(s.clone())),
            Option::None => {},
        }
        let r = Json::Obj(fields);
        proof {
            assert(crate::json::fields_view(fields@) =~= Self::spec_members(self@));
        }
        r
    }

    /// Decode, ignoring unknown keys; fails exactly as the model decoder says.
    pub fn from_json(j: &Json) -> (r: Result<Self, CodecError>)
        ensures
            match r {
                Ok(v) => Self::spec_from_json(j@) == Ok::<FirmwareV, ErrorV>(v@),
                Err(e) => Self::spec_from_json(j@) == Err::<FirmwareV, ErrorV>(e@),
            },
    {
        match j {
            Json::Obj(_) => {},
            _ => {
                return Err(
                    CodecError::TypeMismatch {
                        field: String::new(),
                        expected: "object".to_owned(),
                        found: j.kind().to_owned(),
                    },
                );
            },
        }
        let location = match j.get_req_str("location") {
            Ok(v) => v,
            Err(e) => return Err(e),
        };
        let retrieve_date_time = match j.get_req_instant("retrieveDateTime") {
            Ok(v) => v,
            Err(e) => return Err(e),
        };
        let install_date_time = match j.get_opt_instant("installDateTime") {
            Ok(v) => v,
            Err(e) => return Err(e),
        };
        let signing_certificate = match j.get_opt_str("signingCertificate") {
            Ok(v) => v,
            Err(e) => return Err(e),
        };
        let signature = match j.get_opt_str("signature") {
            Ok(v) => v,
            Err(e) => return Err(e),
        };
        Ok(
            FirmwareType {
                location,
                retrieve_date_time,
                install_date_time,
                signing_certificate,
                signature,
            },
        )
    }
}

/// Decoding an encoded record yields the record back.
pub proof fn lemma_firmware_round_trip(v: FirmwareV)
    requires
        v.wf(),
    ensures
        FirmwareType::spec_from_json(FirmwareType::spec_to_json(v)) == Ok::<FirmwareV, ErrorV>(v),
{
    reveal_strlit("location");
    reveal_strlit("retrieveDateTime");
    reveal_strlit("installDateTime");
    reveal_strlit("signingCertificate");
    reveal_strlit("signature");
    assert("location"@.len() == 8);
    assert("retrieveDateTime"@.len() == 16);
    assert("installDateTime"@.len() == 15);
    assert("signingCertificate"@.len() == 18);
    assert("signature"@.len() == 9);
    let f_loc = JsonV::Str(v.location);
    let f_ret = JsonV::Str(rfc3339_of(v.retrieve_date_time));
    let o_inst = FirmwareType::spec_instant_val(v.install_date_time);
    let o_cert = FirmwareType::spec_str_val(v.signing_certificate);
    let o_sig = FirmwareType::spec_str_val(v.signature);
    let t4 = opt_field("signature"@, o_sig) + Seq::<(Seq<char>, JsonV)>::empty();
    let t3 = opt_field("signingCertificate"@, o_cert) + t4;
    let t2 = opt_field("installDateTime"@, o_inst) + t3;
    let t1 = req_field("retrieveDateTime"@, f_ret) + t2;
    lemma_get_req("location"@, f_loc, t1);
    lemma_skip_req("location"@, f_loc, t1, "retrieveDateTime"@);
    lemma_get_req("retrieveDateTime"@, f_ret, t2);
    lemma_instant_round_trip(v.retrieve_date_time);
    lemma_skip_req("location"@, f_loc, t1, "installDateTime"@);
    lemma_skip_req("retrieveDateTime"@, f_ret, t2, "installDateTime"@);
    lemma_get_opt("installDateTime"@, o_inst, t3);
    lemma_skip_opt("signingCertificate"@, o_cert, t4, "installDateTime"@);
    lemma_skip_opt("signature"@, o_sig, Seq::<(Seq<char>, JsonV)>::empty(), "installDateTime"@);
    if v.install_date_time is Some {
        lemma_instant_round_trip(v.install_date_time->0);
    }
    lemma_skip_req("location"@, f_loc, t1, "signingCertificate"@);
    lemma_skip_req("retrieveDateTime"@, f_ret, t2, "signingCertificate"@);
    lemma_skip_opt("installDateTime"@, o_inst, t3, "signingCertificate"@);
    lemma_get_opt("signingCertificate"@, o_cert, t4);
    lemma_skip_opt("signature"@, o_sig, Seq::<(Seq<char>, JsonV)>::empty(), "signingCertificate"@);
    lemma_skip_req("location"@, f_loc, t1, "signature"@);
    lemma_skip_req("retrieveDateTime"@, f_ret, t2, "signature"@);
    lemma_skip_opt("installDateTime"@, o_inst, t3, "signature"@);
    lemma_skip_opt("signingCertificate"@, o_cert, t4, "signature"@);
    lemma_get_opt("signature"@, o_sig, Seq::<(Seq<char>, JsonV)>::empty());
}

} // verus!
