//! Status information about an identifier: authorization status, cache
//! expiry, charging priority, languages, allowed EVSEs, group token and a
//! personal message.

use vstd::prelude::*;

use crate::codec::dec_opt_instant;
use crate::codec::dec_opt_int;
use crate::codec::dec_opt_int_array;
use crate::codec::dec_opt_str;
use crate::codec::dec_req_str;
use crate::codec::i32_array_to_json;
use crate::codec::int_seq;
use crate::codec::ints_to_json;
use crate::codec::lemma_get_opt;
use crate::codec::lemma_get_req;
use crate::codec::lemma_ints_round_trip;
use crate::codec::lemma_skip_opt;
use crate::codec::lemma_skip_req;
use crate::codec::opt_field;
use crate::codec::req_field;
use crate::datatypes::id_token::lemma_id_token_round_trip;
use crate::datatypes::id_token::IdTokenType;
use crate::datatypes::id_token::IdTokenV;
use crate::datatypes::message_content::lemma_message_content_round_trip;
use crate::datatypes::message_content::MessageContentType;
use crate::datatypes::message_content::MessageContentV;
use crate::enums::lemma_authorization_status_round_trip;
use crate::enums::AuthorizationStatusEnumType;
use crate::error::CodecError;
use crate::error::ErrorV;
use crate::instant::lemma_instant_round_trip;
use crate::instant::rfc3339_of;
use crate::instant::Instant;
use crate::json::kind_of;
use crate::json::push_field;
use crate::json::spec_get_obj;
use crate::json::Json;
use crate::json::JsonField;
use crate::json::JsonV;

verus! {

/// Status information about an identity token. The cache expiry only bounds
/// how long the status may be cached; an absent expiry means the status has
/// no end date.
#[derive(Debug, Clone, PartialEq)]
pub struct IdTokenInfoType {
    pub status: AuthorizationStatusEnumType,
    pub cache_expiry_date_time: Option<Instant>,
    pub charging_priority: Option<i32>,
    pub language1: Option<String>,
    pub evse_id: Option<Vec<i32>>,
    pub language2: Option<String>,
    pub group_id_token: Option<IdTokenType>,
    pub personal_message: Option<MessageContentType>,
}

/// The mathematical model of an [`IdTokenInfoType`].
pub struct IdTokenInfoV {
    pub status: AuthorizationStatusEnumType,
    pub cache_expiry_date_time: Option<Instant>,
    pub charging_priority: Option<int>,
    pub language1: Option<Seq<char>>,
    pub evse_id: Option<Seq<int>>,
    pub language2: Option<Seq<char>>,
    pub group_id_token: Option<IdTokenV>,
    pub personal_message: Option<MessageContentV>,
}

impl View for IdTokenInfoType {
    type V = IdTokenInfoV;

    open spec fn view(&self) -> IdTokenInfoV {
        IdTokenInfoV {
            status: self.status,
            cache_expiry_date_time: self.cache_expiry_date_time,
            charging_priority: match self.charging_priority {
                Option::Some(p) => Option::Some(p as int),
                Option::None => Option::None,
            },
            language1: match self.language1 {
                Option::Some(s) => Option::Some(s@),
                Option::None => Option::None,
            },
            evse_id: match self.evse_id {
                Option::Some(xs) => Option::Some(int_seq(xs@)),
                Option::None => Option::None,
            },
            language2: match self.language2 {
                Option::Some(s) => Option::Some(s@),
                Option::None => Option::None,
            },
            group_id_token: match self.group_id_token {
                Option::Some(t) => Option::Some(t@),
                Option::None => Option::None,
            },
            personal_message: match self.personal_message {
                Option::Some(m) => Option::Some(m@),
                Option::None => Option::None,
            },
        }
    }
}

impl Default for IdTokenInfoType {
    /// The all-default record: accepted status, every optional field absent.
    fn default() -> (r: Self)
        ensures
            r@.status == AuthorizationStatusEnumType::Accepted,
            r@.cache_expiry_date_time is None,
            r@.charging_priority is None,
            r@.language1 is None,
            r@.evse_id is None,
            r@.language2 is None,
            r@.group_id_token is None,
            r@.personal_message is None,
    {
        IdTokenInfoType {
            status: AuthorizationStatusEnumType::Accepted,
            cache_expiry_date_time: Option::None,
            charging_priority: Option::None,
            language1: Option::None,
            evse_id: Option::None,
            language2: Option::None,
            group_id_token: Option::None,
            personal_message: Option::None,
        }
    }
}

impl IdTokenInfoV {
    /// A well-formed model: a real instant when present, a 32-bit priority,
    /// 32-bit EVSE ids.
    pub open spec fn wf(self) -> bool {
        &&& self.cache_expiry_date_time matches Option::Some(i) ==> i.wf()
        &&& self.charging_priority matches Option::Some(p) ==> i32::MIN <= p <= i32::MAX
        &&& self.evse_id matches Option::Some(ns) ==> forall|i: int|
            0 <= i < ns.len() ==> i32::MIN <= #[trigger] ns[i] <= i32::MAX
    }
}

impl IdTokenInfoType {
    /// The tree an optional cache-expiry instant contributes.
    pub open spec fn spec_cache_val(o: Option<Instant>) -> Option<JsonV> {
        match o {
            Option::Some(i) => Option::Some(JsonV::Str(rfc3339_of(i))),
            Option::None => Option::None,
        }
    }

    /// The tree an optional priority contributes.
    pub open spec fn spec_prio_val(o: Option<int>) -> Option<JsonV> {
        match o {
            Option::Some(p) => Option::Some(
                JsonV::Num(crate::decimal::Decimal { mantissa: p as i64, scale: 0 }),
            ),
            Option::None => Option::None,
        }
    }

    /// The tree an optional string contributes.
    pub open spec fn spec_str_val(o: Option<Seq<char>>) -> Option<JsonV> {
        match o {
            Option::Some(s) => Option::Some(JsonV::Str(s)),
            Option::None => Option::None,
        }
    }

    /// The tree an optional EVSE id list contributes.
    pub open spec fn spec_evse_val(o: Option<Seq<int>>) -> Option<JsonV> {
        match o {
            Option::Some(ns) => Option::Some(JsonV::Arr(ints_to_json(ns))),
            Option::None => Option::None,
        }
    }

    /// The tree an optional group token contributes.
    pub open spec fn spec_group_val(o: Option<IdTokenV>) -> Option<JsonV> {
        match o {
            Option::Some(t) => Option::Some(IdTokenType::spec_to_json(t)),
            Option::None => Option::None,
        }
    }

    /// The tree an optional personal message contributes.
    pub open spec fn spec_msg_val(o: Option<MessageContentV>) -> Option<JsonV> {
        match o {
            Option::Some(m) => Option::Some(MessageContentType::spec_to_json(m)),
            Option::None => Option::None,
        }
    }

    /// The members of the encoded record, in writing order; absent optional
    /// fields contribute nothing.
    pub open spec fn spec_members(v: IdTokenInfoV) -> Seq<(Seq<char>, JsonV)> {
        let t7 = opt_field("personalMessage"@, Self::spec_msg_val(v.personal_message)) + Seq::<(
            Seq<char>,
            JsonV,
        )>::empty();
        let t6 = opt_field("groupIdToken"@, Self::spec_group_val(v.group_id_token)) + t7;
        let t5 = opt_field("language2"@, Self::spec_str_val(v.language2)) + t6;
        let t4 = opt_field("evseId"@, Self::spec_evse_val(v.evse_id)) + t5;
        let t3 = opt_field("language1"@, Self::spec_str_val(v.language1)) + t4;
        let t2 = opt_field("chargingPriority"@, Self::spec_prio_val(v.charging_priority)) + t3;
        let t1 = opt_field("cacheExpiryDateTime"@, Self::spec_cache_val(v.cache_expiry_date_time))
            + t2;
        req_field("status"@, JsonV::Str(v.status.spec_tag())) + t1
    }

    /// The encoded tree of a model value.
    pub open spec fn spec_to_json(v: IdTokenInfoV) -> JsonV {
        JsonV::Obj(Self::spec_members(v))
    }

    /// The decoded model value of a tree, or the first failure.
    pub open spec fn spec_from_json(j: JsonV) -> Result<IdTokenInfoV, ErrorV> {
        if !(j is Obj) {
            Err(
                ErrorV::TypeMismatch {
                    field: Seq::<char>::empty(),
                    expected: "object"@,
                    found: kind_of(j),
                },
            )
        } else {
            let r_tag = dec_req_str(j, "status"@);
            let r_cache = dec_opt_instant(j, "cacheExpiryDateTime"@);
            let r_prio = dec_opt_int(j, "chargingPriority"@, i32::MIN as int, i32::MAX as int);
            let r_lang1 = dec_opt_str(j, "language1"@);
            let r_evse = dec_opt_int_array(j, "evseId"@, i32::MIN as int, i32::MAX as int);
            let r_lang2 = dec_opt_str(j, "language2"@);
            let r_group = Self::spec_group(j);
            let r_msg = Self::spec_personal(j);
            if r_tag is Err {
                Err(r_tag->Err_0)
            } else if AuthorizationStatusEnumType::spec_of_tag(r_tag->Ok_0) is None {
                Err(
                    ErrorV::UnknownEnumerationValue {
                        enum_name: "AuthorizationStatusEnumType"@,
                        received_tag: r_tag->Ok_0,
                    },
                )
            } else if r_cache is Err {
                Err(r_cache->Err_0)
            } else if r_prio is Err {
                Err(r_prio->Err_0)
            } else if r_lang1 is Err {
                Err(r_lang1->Err_0)
            } else if r_evse is Err {
                Err(r_evse->Err_0)
            } else if r_lang2 is Err {
                Err(r_lang2->Err_0)
            } else if r_group is Err {
                Err(r_group->Err_0)
            } else if r_msg is Err {
                Err(r_msg->Err_0)
            } else {
                Ok(
                    IdTokenInfoV {
                        status: AuthorizationStatusEnumType::spec_of_tag(r_tag->Ok_0)->Some_0,
                        cache_expiry_date_time: r_cache->Ok_0,
                        charging_priority: r_prio->Ok_0,
                        language1: r_lang1->Ok_0,
                        evse_id: r_evse->Ok_0,
                        language2: r_lang2->Ok_0,
                        group_id_token: r_group->Ok_0,
                        personal_message: r_msg->Ok_0,
                    },
                )
            }
        }
    }

    /// The optional nested group token of a tree.
    pub open spec fn spec_group(j: JsonV) -> Result<Option<IdTokenV>, ErrorV> {
        match spec_get_obj(j, "groupIdToken"@) {
            Option::None => Ok(Option::None),
            Option::Some(sub) => match IdTokenType::spec_from_json(sub) {
                Ok(t) => Ok(Option::Some(t)),
                Err(e) => Err(e),
            },
        }
    }

    /// The optional nested personal message of a tree.
    pub open spec fn spec_personal(j: JsonV) -> Result<Option<MessageContentV>, ErrorV> {
        match spec_get_obj(j, "personalMessage"@) {
            Option::None => Ok(Option::None),
            Option::Some(sub) => match MessageContentType::spec_from_json(sub) {
                Ok(m) => Ok(Option::Some(m)),
                Err(e) => Err(e),
            },
        }
    }

    /// Encode: one map-shaped record, absent optional fields omitted.
    #[verifier::rlimit(100)]
    pub fn to_json(&self) -> (r: Json)
        requires
            self@.wf(),
        ensures
            r@ == Self::spec_to_json(self@),
    {
        let ghost s0 = req_field("status"@, JsonV::Str(self@.status.spec_tag()));
        let ghost s1 = opt_field(
            "cacheExpiryDateTime"@,
            Self::spec_cache_val(self@.cache_expiry_date_time),
        );
        let ghost s2 = opt_field("chargingPriority"@, Self::spec_prio_val(self@.charging_priority));
        let ghost s3 = opt_field("language1"@, Self::spec_str_val(self@.language1));
        let ghost s4 = opt_field("evseId"@, Self::spec_evse_val(self@.evse_id));
        let ghost s5 = opt_field("language2"@, Self::spec_str_val(self@.language2));
        let ghost s6 = opt_field("groupIdToken"@, Self::spec_group_val(self@.group_id_token));
        let ghost s7 = opt_field("personalMessage"@, Self::spec_msg_val(self@.personal_message));
        let ghost l0 = s0;
        let ghost l1 = l0 + s1;
        let ghost l2 = l1 + s2;
        let ghost l3 = l2 + s3;
        let ghost l4 = l3 + s4;
        let ghost l5 = l4 + s5;
        let ghost l6 = l5 + s6;
        let ghost l7 = l6 + s7;
        let mut fields: Vec<JsonField> = Vec::new();
        proof {
            broadcast use vstd::seq_lib::group_seq_lib_default;

            assert(crate::json::fields_view(fields@) =~= Seq::<(Seq<char>, JsonV)>::empty());
        }
        push_field(&mut fields, "status", Json::Str(self.status.tag().to_owned()));
        match &self.cache_expiry_date_time {
            Option::Some(i) => push_field(
                &mut fields,
                "cacheExpiryDateTime",
                Json::Str(i.to_rfc3339()),
            ),
            Option::None => {},
        }
        proof {
            broadcast use vstd::seq_lib::group_seq_lib_default;

            assert(crate::json::fields_view(fields@) == l1);
        }
        match &self.charging_priority {
            Option::Some(p) => push_field(
                &mut fields,
                "chargingPriority",
                Json::Num(crate::decimal::Decimal { mantissa: *p as i64, scale: 0 }),
            ),
            Option::None => {},
        }
        proof {
            broadcast use vstd::seq_lib::group_seq_lib_default;

            assert(crate::json::fields_view(fields@) == l2);
        }
        match &self.language1 {
            Option::Some(s) => push_field(&mut fields, "language1", Json::Str(s.clone())),
            Option::None => {},
        }
        proof {
            broadcast use vstd::seq_lib::group_seq_lib_default;

            assert(crate::json::fields_view(fields@) == l3);
        }
        match &self.evse_id {
            Option::Some(xs) => push_field(&mut fields, "evseId", i32_array_to_json(xs)),
            Option::None => {},
        }
        proof {
            broadcast use vstd::seq_lib::group_seq_lib_default;

            assert(crate::json::fields_view(fields@) == l4);
        }
        match &self.language2 {
            Option::Some(s) => push_field(&mut fields, "language2", Json::Str(s.clone())),
            Option::None => {},
        }
        proof {
            broadcast use vstd::seq_lib::group_seq_lib_default;

            assert(crate::json::fields_view(fields@) == l5);
        }
        match &self.group_id_token {
            Option::Some(t) => push_field(&mut fields, "groupIdToken", t.to_json()),
            Option::None => {},
        }
        proof {
            broadcast use vstd::seq_lib::group_seq_lib_default;

            assert(crate::json::fields_view(fields@) == l6);
        }
        match &self.personal_message {
            Option::Some(m) => push_field(&mut fields, "personalMessage", m.to_json()),
            Option::None => {},
        }
        proof {
            broadcast use vstd::seq_lib::group_seq_lib_default;

            assert(crate::json::fields_view(fields@) == l7);
        }
        let r = Json::Obj(fields);
        proof {
            broadcast use vstd::seq_lib::group_seq_lib_default;

            let t7 = s7 + Seq::<(Seq<char>, JsonV)>::empty();
            let t6 = s6 + t7;
            let t5 = s5 + t6;
            let t4 = s4 + t5;
            let t3 = s3 + t4;
            let t2 = s2 + t3;
            let t1 = s1 + t2;
            assert(Self::spec_members(self@) == s0 + t1);
            vstd::seq_lib::lemma_concat_associative(s0, s1, t2);
            vstd::seq_lib::lemma_concat_associative(l1, s2, t3);
            vstd::seq_lib::lemma_concat_associative(l2, s3, t4);
            vstd::seq_lib::lemma_concat_associative(l3, s4, t5);
            vstd::seq_lib::lemma_concat_associative(l4, s5, t6);
            vstd::seq_lib::lemma_concat_associative(l5, s6, t7);
            vstd::seq_lib::lemma_concat_associative(l6, s7, Seq::<(Seq<char>, JsonV)>::empty());
            assert(Self::spec_members(self@) == l7);
        }
        r
    }

    /// Decode, ignoring unknown keys; fails exactly as the model decoder says.
    pub fn from_json(j: &Json) -> (r: Result<Self, CodecError>)
        ensures
            match r {
                Ok(v) => Self::spec_from_json(j@) == Ok::<IdTokenInfoV, ErrorV>(v@),
                Err(e) => Self::spec_from_json(j@) == Err::<IdTokenInfoV, ErrorV>(e@),
            },
    {
        match j {
            Json::Obj(_) => {},
            _ => {
                return Err(
                    CodecError::TypeMismatch {
                        field: String::new(),
                        expected: "object".to_owned(),
                        found: j.kind().to_owned(),
                    },
                );
            },
        }
        let tag = match j.get_req_str("status") {
            Ok(v) => v,
            Err(e) => return Err(e),
        };
        let status = match AuthorizationStatusEnumType::from_tag(tag.as_str()) {
            Option::Some(s) => s,
            Option::None => {
                return Err(
                    CodecError::UnknownEnumerationValue {
                        enum_name: "AuthorizationStatusEnumType".to_owned(),
                        received_tag: tag,
                    },
                );
            },
        };
        let cache_expiry_date_time = match j.get_opt_instant("cacheExpiryDateTime") {
            Ok(v) => v,
            Err(e) => return Err(e),
        };
        let charging_priority = match j.get_opt_i32("chargingPriority") {
            Ok(v) => v,
            Err(e) => return Err(e),
        };
        let language1 = match j.get_opt_str("language1") {
            Ok(v) => v,
            Err(e) => return Err(e),
        };
        let evse_id = match j.get_opt_i32_array("evseId") {
            Ok(v) => v,
            Err(e) => return Err(e),
        };
        let language2 = match j.get_opt_str("language2") {
            Ok(v) => v,
            Err(e) => return Err(e),
        };
        let group_id_token = match j.get("groupIdToken") {
            Option::None => Option::None,
            Option::Some(sub) => match IdTokenType::from_json(sub) {
                Ok(t) => Option::Some(t),
                Err(e) => return Err(e),
            },
        };
        let personal_message = match j.get("personalMessage") {
            Option::None => Option::None,
            Option::Some(sub) => match MessageContentType::from_json(sub) {
                Ok(m) => Option::Some(m),
                Err(e) => return Err(e),
            },
        };
        Ok(
            IdTokenInfoType {
                status,
                cache_expiry_date_time,
                charging_priority,
                language1,
                evse_id,
                language2,
                group_id_token,
                personal_message,
            },
        )
    }
}

/// Facts about this record's keys: lengths, leading characters, and the one
/// same-shape pair told apart by its last character.
proof fn lemma_id_token_info_keys()
    ensures
        "status"@.len() == 6,
        "cacheExpiryDateTime"@.len() == 19,
        "chargingPriority"@.len() == 16,
        "language1"@.len() == 9,
        "evseId"@.len() == 6,
        "language2"@.len() == 9,
        "groupIdToken"@.len() == 12,
        "personalMessage"@.len() == 15,
        "status"@ != "evseId"@,
        "language1"@ != "language2"@,
{
    reveal_strlit("status");
    reveal_strlit("cacheExpiryDateTime");
    reveal_strlit("chargingPriority");
    reveal_strlit("language1");
    reveal_strlit("evseId");
    reveal_strlit("language2");
    reveal_strlit("groupIdToken");
    reveal_strlit("personalMessage");
    assert("status"@[0] == 's' && "evseId"@[0] == 'e');
    assert("language1"@[8] == '1' && "language2"@[8] == '2');
}

/// Decoding an encoded record yields the record back, and the encoded tree
/// holds the cache-expiry key exactly when the field is present.
pub proof fn lemma_id_token_info_round_trip(v: IdTokenInfoV)
    requires
        v.wf(),
    ensures
        IdTokenInfoType::spec_from_json(IdTokenInfoType::spec_to_json(v)) == Ok::<
            IdTokenInfoV,
            ErrorV,
        >(v),
        spec_get_obj(IdTokenInfoType::spec_to_json(v), "cacheExpiryDateTime"@) is Some
            <==> v.cache_expiry_date_time is Some,
{
    lemma_id_token_info_keys();
    let f_status = JsonV::Str(v.status.spec_tag());
    let o_cache = match v.cache_expiry_date_time {
        Option::Some(i) => Option::Some(JsonV::Str(rfc3339_of(i))),
        Option::None => Option::<JsonV>::None,
    };
    let o_prio = match v.charging_priority {
        Option::Some(p) => Option::Some(
            JsonV::Num(crate::decimal::Decimal { mantissa: p as i64, scale: 0 }),
        ),
        Option::None => Option::<JsonV>::None,
    };
    let o_lang1 = match v.language1 {
        Option::Some(s) => Option::Some(JsonV::Str(s)),
        Option::None => Option::<JsonV>::None,
    };
    let o_evse = match v.evse_id {
        Option::Some(ns) => Option::Some(JsonV::Arr(ints_to_json(ns))),
        Option::None => Option::<JsonV>::None,
    };
    let o_lang2 = match v.language2 {
        Option::Some(s) => Option::Some(JsonV::Str(s)),
        Option::None => Option::<JsonV>::None,
    };
    let o_group = match v.group_id_token {
        Option::Some(t) => Option::Some(IdTokenType::spec_to_json(t)),
        Option::None => Option::<JsonV>::None,
    };
    let o_msg = match v.personal_message {
        Option::Some(m) => Option::Some(MessageContentType::spec_to_json(m)),
        Option::None => Option::<JsonV>::None,
    };
    let t7 = opt_field("personalMessage"@, o_msg) + Seq::<(Seq<char>, JsonV)>::empty();
    let t6 = opt_field("groupIdToken"@, o_group) + t7;
    let t5 = opt_field("language2"@, o_lang2) + t6;
    let t4 = opt_field("evseId"@, o_evse) + t5;
    let t3 = opt_field("language1"@, o_lang1) + t4;
    let t2 = opt_field("chargingPriority"@, o_prio) + t3;
    let t1 = opt_field("cacheExpiryDateTime"@, o_cache) + t2;
    // status
    lemma_get_req("status"@, f_status, t1);
    lemma_authorization_status_round_trip(v.status);
    // cacheExpiryDateTime
    lemma_skip_req("status"@, f_status, t1, "cacheExpiryDateTime"@);
    lemma_get_opt("cacheExpiryDateTime"@, o_cache, t2);
    lemma_skip_opt("chargingPriority"@, o_prio, t3, "cacheExpiryDateTime"@);
    lemma_skip_opt("language1"@, o_lang1, t4, "cacheExpiryDateTime"@);
    lemma_skip_opt("evseId"@, o_evse, t5, "cacheExpiryDateTime"@);
    lemma_skip_opt("language2"@, o_lang2, t6, "cacheExpiryDateTime"@);
    lemma_skip_opt("groupIdToken"@, o_group, t7, "cacheExpiryDateTime"@);
    lemma_skip_opt(
        "personalMessage"@,
        o_msg,
        Seq::<(Seq<char>, JsonV)>::empty(),
        "cacheExpiryDateTime"@,
    );
    if v.cache_expiry_date_time is Some {
        lemma_instant_round_trip(v.cache_expiry_date_time->0);
    }
    // chargingPriority
    lemma_skip_req("status"@, f_status, t1, "chargingPriority"@);
    lemma_skip_opt("cacheExpiryDateTime"@, o_cache, t2, "chargingPriority"@);
    lemma_get_opt("chargingPriority"@, o_prio, t3);
    lemma_skip_opt("language1"@, o_lang1, t4, "chargingPriority"@);
    lemma_skip_opt("evseId"@, o_evse, t5, "chargingPriority"@);
    lemma_skip_opt("language2"@, o_lang2, t6, "chargingPriority"@);
    lemma_skip_opt("groupIdToken"@, o_group, t7, "chargingPriority"@);
    lemma_skip_opt(
        "personalMessage"@,
        o_msg,
        Seq::<(Seq<char>, JsonV)>::empty(),
        "chargingPriority"@,
    );
    // language1
    lemma_skip_req("status"@, f_status, t1, "language1"@);
    lemma_skip_opt("cacheExpiryDateTime"@, o_cache, t2, "language1"@);
    lemma_skip_opt("chargingPriority"@, o_prio, t3, "language1"@);
    lemma_get_opt("language1"@, o_lang1, t4);
    lemma_skip_opt("evseId"@, o_evse, t5, "language1"@);
    lemma_skip_opt("language2"@, o_lang2, t6, "language1"@);
    lemma_skip_opt("groupIdToken"@, o_group, t7, "language1"@);
    lemma_skip_opt("personalMessage"@, o_msg, Seq::<(Seq<char>, JsonV)>::empty(), "language1"@);
    // evseId
    lemma_skip_req("status"@, f_status, t1, "evseId"@);
    lemma_skip_opt("cacheExpiryDateTime"@, o_cache, t2, "evseId"@);
    lemma_skip_opt("chargingPriority"@, o_prio, t3, "evseId"@);
    lemma_skip_opt("language1"@, o_lang1, t4, "evseId"@);
    lemma_get_opt("evseId"@, o_evse, t5);
    lemma_skip_opt("language2"@, o_lang2, t6, "evseId"@);
    lemma_skip_opt("groupIdToken"@, o_group, t7, "evseId"@);
    lemma_skip_opt("personalMessage"@, o_msg, Seq::<(Seq<char>, JsonV)>::empty(), "evseId"@);
    if v.evse_id is Some {
        lemma_ints_round_trip(v.evse_id->0, i32::MIN as int, i32::MAX as int);
    }
    // language2
    lemma_skip_req("status"@, f_status, t1, "language2"@);
    lemma_skip_opt("cacheExpiryDateTime"@, o_cache, t2, "language2"@);
    lemma_skip_opt("chargingPriority"@, o_prio, t3, "language2"@);
    lemma_skip_opt("language1"@, o_lang1, t4, "language2"@);
    lemma_skip_opt("evseId"@, o_evse, t5, "language2"@);
    lemma_get_opt("language2"@, o_lang2, t6);
    lemma_skip_opt("groupIdToken"@, o_group, t7, "language2"@);
    lemma_skip_opt("personalMessage"@, o_msg, Seq::<(Seq<char>, JsonV)>::empty(), "language2"@);
    // groupIdToken
    lemma_skip_req("status"@, f_status, t1, "groupIdToken"@);
    lemma_skip_opt("cacheExpiryDateTime"@, o_cache, t2, "groupIdToken"@);
    lemma_skip_opt("chargingPriority"@, o_prio, t3, "groupIdToken"@);
    lemma_skip_opt("language1"@, o_lang1, t4, "groupIdToken"@);
    lemma_skip_opt("evseId"@, o_evse, t5, "groupIdToken"@);
    lemma_skip_opt("language2"@, o_lang2, t6, "groupIdToken"@);
    lemma_get_opt("groupIdToken"@, o_group, t7);
    lemma_skip_opt("personalMessage"@, o_msg, Seq::<(Seq<char>, JsonV)>::empty(), "groupIdToken"@);
    if v.group_id_token is Some {
        lemma_id_token_round_trip(v.group_id_token->0);
    }
    // personalMessage
    lemma_skip_req("status"@, f_status, t1, "personalMessage"@);
    lemma_skip_opt("cacheExpiryDateTime"@, o_cache, t2, "personalMessage"@);
    lemma_skip_opt("chargingPriority"@, o_prio, t3, "personalMessage"@);
    lemma_skip_opt("language1"@, o_lang1, t4, "personalMessage"@);
    lemma_skip_opt("evseId"@, o_evse, t5, "personalMessage"@);
    lemma_skip_opt("language2"@, o_lang2, t6, "personalMessage"@);
    lemma_skip_opt("groupIdToken"@, o_group, t7, "personalMessage"@);
    lemma_get_opt("personalMessage"@, o_msg, Seq::<(Seq<char>, JsonV)>::empty());
    if v.personal_message is Some {
        lemma_message_content_round_trip(v.personal_message->0);
    }
}

} // verus!
