//! A collection of sampled values taken at one point in time.

use vstd::prelude::*;

use crate::codec::dec_req_instant;
use crate::codec::lemma_get_req;
use crate::codec::lemma_skip_req;
use crate::codec::req_field;
use crate::datatypes::sampled_value::lemma_sampled_value_round_trip;
use crate::datatypes::sampled_value::SampledValueType;
use crate::datatypes::sampled_value::SampledValueV;
use crate::error::CodecError;
use crate::error::ErrorV;
use crate::instant::lemma_instant_round_trip;
use crate::instant::rfc3339_of;
use crate::instant::Instant;
use crate::json::elems_view;
use crate::json::kind_of;
use crate::json::push_field;
use crate::json::spec_get_obj;
use crate::json::Json;
use crate::json::JsonField;
use crate::json::JsonV;

verus! {

/// Sampled values all taken at the same instant.
#[derive(Debug, Clone, PartialEq)]
pub struct MeterValueType {
    pub timestamp: Instant,
    pub sampled_value: Vec<SampledValueType>,
}

/// The mathematical model of a [`MeterValueType`].
pub struct MeterValueV {
    pub timestamp: Instant,
    pub sampled_value: Seq<SampledValueV>,
}

/// The models of a vector of sampled values, in order.
pub open spec fn sampled_views(xs: Seq<SampledValueType>) -> Seq<SampledValueV>
    decreases xs.len(),
{
    if xs.len() == 0 {
        Seq::<SampledValueV>::empty()
    } else {
        sampled_views(xs.drop_last()).push(xs.last()@)
    }
}

impl View for MeterValueType {
    type V = MeterValueV;

    open spec fn view(&self) -> MeterValueV {
        MeterValueV { timestamp: self.timestamp, sampled_value: sampled_views(self.sampled_value@) }
    }
}

impl MeterValueV {
    /// A well-formed model: a real instant.
    pub open spec fn wf(self) -> bool {
        self.timestamp.wf()
    }
}

/// One tree per sampled value, in order.
pub open spec fn sampled_seq_to_json(vs: Seq<SampledValueV>) -> Seq<JsonV>
    decreases vs.len(),
{
    if vs.len() == 0 {
        Seq::<JsonV>::empty()
    } else {
        sampled_seq_to_json(vs.drop_last()).push(SampledValueType::spec_to_json(vs.last()))
    }
}

/// The sampled values of an array of trees, or the first failure.
pub open spec fn dec_sampled_seq(items: Seq<JsonV>) -> Result<Seq<SampledValueV>, ErrorV>
    decreases items.len(),
{
    if items.len() == 0 {
        Ok(Seq::<SampledValueV>::empty())
    } else {
        match SampledValueType::spec_from_json(items.first()) {
            Err(e) => Err(e),
            Ok(v) => match dec_sampled_seq(items.drop_first()) {
                Err(e) => Err(e),
                Ok(rest) => Ok(seq![v] + rest),
            },
        }
    }
}

/// An encoded sequence read from the front is its first tree and the rest.
proof fn lemma_sampled_seq_first(vs: Seq<SampledValueV>)
    requires
        vs.len() > 0,
    ensures
        sampled_seq_to_json(vs) =~= seq![
            SampledValueType::spec_to_json(vs.first()),
        ] + sampled_seq_to_json(vs.drop_first()),
    decreases vs.len(),
{
    broadcast use vstd::seq_lib::group_seq_lib_default;

    if vs.len() > 1 {
        lemma_sampled_seq_first(vs.drop_last());
        assert(vs.drop_last().drop_first() =~= vs.drop_first().drop_last());
        assert(vs.drop_last().first() == vs.first());
        assert(vs.drop_first().last() == vs.last());
        assert(vs.drop_first().len() > 0);
        assert(sampled_seq_to_json(vs.drop_first()) == sampled_seq_to_json(
            vs.drop_first().drop_last(),
        ).push(SampledValueType::spec_to_json(vs.drop_first().last())));
        assert(sampled_seq_to_json(vs) =~= seq![
            SampledValueType::spec_to_json(vs.first()),
        ] + sampled_seq_to_json(vs.drop_first()));
    } else {
        assert(vs.drop_first() =~= Seq::<SampledValueV>::empty());
        assert(vs.drop_last() =~= Seq::<SampledValueV>::empty());
        assert(sampled_seq_to_json(vs) =~= seq![
            SampledValueType::spec_to_json(vs.first()),
        ] + sampled_seq_to_json(vs.drop_first()));
    }
}

/// Decoding an encoded sequence of sampled values yields the sequence back.
pub proof fn lemma_sampled_seq_round_trip(vs: Seq<SampledValueV>)
    ensures
        dec_sampled_seq(sampled_seq_to_json(vs)) == Ok::<Seq<SampledValueV>, ErrorV>(vs),
    decreases vs.len(),
{
    if vs.len() > 0 {
        lemma_sampled_seq_first(vs);
        lemma_sampled_value_round_trip(vs.first());
        lemma_sampled_seq_round_trip(vs.drop_first());
        let s = sampled_seq_to_json(vs);
        assert(s.len() > 0);
        assert(s.first() == SampledValueType::spec_to_json(vs.first()));
        assert(s.drop_first() =~= sampled_seq_to_json(vs.drop_first()));
        assert(SampledValueType::spec_from_json(s.first()) == Ok::<SampledValueV, ErrorV>(
            vs.first(),
        ));
        assert(dec_sampled_seq(s.drop_first()) == Ok::<Seq<SampledValueV>, ErrorV>(
            vs.drop_first(),
        ));
        assert(dec_sampled_seq(s) == Ok::<Seq<SampledValueV>, ErrorV>(
            seq![vs.first()] + vs.drop_first(),
        ));
        assert(seq![vs.first()] + vs.drop_first() =~= vs);
    } else {
        assert(vs =~= Seq::<SampledValueV>::empty());
    }
}

/// Encode a vector of sampled values as an array of trees.
pub fn sampled_vec_to_json(xs: &Vec<SampledValueType>) -> (r: Json)
    ensures
        r@ == JsonV::Arr(sampled_seq_to_json(sampled_views(xs@))),
{
    let mut items: Vec<Json> = Vec::new();
    let n = xs.len();
    let mut i: usize = 0;
    while i < n
        invariant
            n == xs@.len(),
            i <= n,
            elems_view(items@) == sampled_seq_to_json(sampled_views(xs@.take(i as int))),
        decreases n - i,
    {
        let ghost pre_items = items@;
        let ghost pre = sampled_views(xs@.take(i as int));
        let j = xs[i].to_json();
        items.push(j);
        proof {
            crate::json::lemma_elems_view_push(pre_items, j);
            assert(xs@.take(i as int + 1).drop_last() =~= xs@.take(i as int));
            assert(pre.push(xs@[i as int]@).drop_last() =~= pre);
        }
        i = i + 1;
    }
    proof {
        assert(xs@.take(n as int) =~= xs@);
    }
    Json::Arr(items)
}

/// Decode an array of trees as sampled values, first failure wins.
pub fn sampled_vec_from_json(items: &Vec<Json>) -> (r: Result<Vec<SampledValueType>, CodecError>)
    ensures
        match r {
            Ok(xs) => dec_sampled_seq(elems_view(items@)) == Ok::<Seq<SampledValueV>, ErrorV>(
                sampled_views(xs@),
            ),
            Err(e) => dec_sampled_seq(elems_view(items@)) == Err::<Seq<SampledValueV>, ErrorV>(e@),
        },
{
    let ghost model = elems_view(items@);
    proof {
        crate::json::lemma_elems_view(items@);
    }
    proof {
        broadcast use vstd::seq_lib::group_seq_lib_default;

        assert(model.skip(0) =~= model);
    }
    let mut out: Vec<SampledValueType> = Vec::new();
    let n = items.len();
    let mut i: usize = 0;
    while i < n
        invariant
            n == items@.len(),
            i <= n,
            model == elems_view(items@),
            model.len() == n,
            forall|k: int| 0 <= k < model.len() ==> model[k] == crate::json::jview(items@[k]),
            forall|rest: Seq<SampledValueV>|
                dec_sampled_seq(model.skip(i as int)) == Ok::<Seq<SampledValueV>, ErrorV>(rest)
                    ==> dec_sampled_seq(model) == Ok::<Seq<SampledValueV>, ErrorV>(
                    #[trigger] (sampled_views(out@) + rest),
                ),
            dec_sampled_seq(model.skip(i as int)) is Err ==> dec_sampled_seq(model)
                == dec_sampled_seq(model.skip(i as int)),
        decreases n - i,
    {
        proof {
            assert(model.skip(i as int).first() == model[i as int]);
            assert(model.skip(i as int).drop_first() =~= model.skip(i as int + 1));
        }
        let v = match SampledValueType::from_json(&items[i]) {
            Ok(v) => v,
            Err(e) => return Err(e),
        };
        let ghost pre_out = out@;
        out.push(v);
        proof {
            broadcast use vstd::seq_lib::group_seq_lib_default;

            assert(out@.drop_last() =~= pre_out);
            assert(sampled_views(out@) == sampled_views(pre_out).push(v@));
            assert(forall|rest: Seq<SampledValueV>|
                (sampled_views(pre_out) + (seq![v@] + rest)) =~= #[trigger] (sampled_views(out@)
                    + rest));
        }
        i = i + 1;
    }
    proof {
        broadcast use vstd::seq_lib::group_seq_lib_default;

        assert(model.skip(n as int) =~= Seq::<JsonV>::empty());
        assert(dec_sampled_seq(model.skip(n as int)) == Ok::<Seq<SampledValueV>, ErrorV>(
            Seq::<SampledValueV>::empty(),
        ));
        assert(sampled_views(out@) + Seq::<SampledValueV>::empty() =~= sampled_views(out@));
    }
    Ok(out)
}

/// The models of a vector of meter values, in order.
pub open spec fn meter_views(xs: Seq<MeterValueType>) -> Seq<MeterValueV>
    decreases xs.len(),
{
    if xs.len() == 0 {
        Seq::<MeterValueV>::empty()
    } else {
        meter_views(xs.drop_last()).push(xs.last()@)
    }
}

/// One tree per meter value, in order.
pub open spec fn meter_seq_to_json(vs: Seq<MeterValueV>) -> Seq<JsonV>
    decreases vs.len(),
{
    if vs.len() == 0 {
        Seq::<JsonV>::empty()
    } else {
        meter_seq_to_json(vs.drop_last()).push(MeterValueType::spec_to_json(vs.last()))
    }
}

/// The meter values of an array of trees, or the first failure.
pub open spec fn dec_meter_seq(items: Seq<JsonV>) -> Result<Seq<MeterValueV>, ErrorV>
    decreases items.len(),
{
    if items.len() == 0 {
        Ok(Seq::<MeterValueV>::empty())
    } else {
        match MeterValueType::spec_from_json(items.first()) {
            Err(e) => Err(e),
            Ok(v) => match dec_meter_seq(items.drop_first()) {
                Err(e) => Err(e),
                Ok(rest) => Ok(seq![v] + rest),
            },
        }
    }
}

/// An encoded sequence read from the front is its first tree and the rest.
proof fn lemma_meter_seq_first(vs: Seq<MeterValueV>)
    requires
        vs.len() > 0,
    ensures
        meter_seq_to_json(vs) =~= seq![MeterValueType::spec_to_json(vs.first())]
            + meter_seq_to_json(vs.drop_first()),
    decreases vs.len(),
{
    broadcast use vstd::seq_lib::group_seq_lib_default;

    if vs.len() > 1 {
        lemma_meter_seq_first(vs.drop_last());
        assert(vs.drop_last().drop_first() =~= vs.drop_first().drop_last());
        assert(vs.drop_last().first() == vs.first());
        assert(vs.drop_first().last() == vs.last());
        assert(meter_seq_to_json(vs.drop_first()) == meter_seq_to_json(
            vs.drop_first().drop_last(),
        ).push(MeterValueType::spec_to_json(vs.drop_first().last())));
        assert(meter_seq_to_json(vs) =~= seq![MeterValueType::spec_to_json(vs.first())]
            + meter_seq_to_json(vs.drop_first()));
    } else {
        assert(vs.drop_first() =~= Seq::<MeterValueV>::empty());
        assert(vs.drop_last() =~= Seq::<MeterValueV>::empty());
        assert(meter_seq_to_json(vs) =~= seq![MeterValueType::spec_to_json(vs.first())]
            + meter_seq_to_json(vs.drop_first()));
    }
}

/// Decoding an encoded sequence of meter values yields the sequence back.
pub proof fn lemma_meter_seq_round_trip(vs: Seq<MeterValueV>)
    requires
        forall|i: int| 0 <= i < vs.len() ==> (#[trigger] vs[i]).wf(),
    ensures
        dec_meter_seq(meter_seq_to_json(vs)) == Ok::<Seq<MeterValueV>, ErrorV>(vs),
    decreases vs.len(),
{
    if vs.len() > 0 {
        lemma_meter_seq_first(vs);
        lemma_meter_value_round_trip(vs.first());
        assert(forall|i: int|
            0 <= i < vs.drop_first().len() ==> (#[trigger] vs.drop_first()[i]).wf());
        lemma_meter_seq_round_trip(vs.drop_first());
        let s = meter_seq_to_json(vs);
        assert(s.len() > 0);
        assert(s.first() == MeterValueType::spec_to_json(vs.first()));
        assert(s.drop_first() =~= meter_seq_to_json(vs.drop_first()));
        assert(MeterValueType::spec_from_json(s.first()) == Ok::<MeterValueV, ErrorV>(vs.first()));
        assert(dec_meter_seq(s.drop_first()) == Ok::<Seq<MeterValueV>, ErrorV>(vs.drop_first()));
        assert(dec_meter_seq(s) == Ok::<Seq<MeterValueV>, ErrorV>(
            seq![vs.first()] + vs.drop_first(),
        ));
        assert(seq![vs.first()] + vs.drop_first() =~= vs);
    } else {
        assert(vs =~= Seq::<MeterValueV>::empty());
    }
}

/// Encode a vector of meter values as an array of trees.
pub fn meter_vec_to_json(xs: &Vec<MeterValueType>) -> (r: Json)
    requires
        forall|i: int| 0 <= i < meter_views(xs@).len() ==> (#[trigger] meter_views(xs@)[i]).wf(),
    ensures
        r@ == JsonV::Arr(meter_seq_to_json(meter_views(xs@))),
{
    proof {
        lemma_meter_views_index(xs@);
        assert forall|k: int| 0 <= k < xs@.len() implies (#[trigger] xs@[k]@).wf() by {
            assert(meter_views(xs@)[k] == xs@[k]@);
        }
    }
    let mut items: Vec<Json> = Vec::new();
    let n = xs.len();
    let mut i: usize = 0;
    while i < n
        invariant
            n == xs@.len(),
            i <= n,
            forall|k: int| 0 <= k < xs@.len() ==> (#[trigger] xs@[k]@).wf(),
            elems_view(items@) == meter_seq_to_json(meter_views(xs@.take(i as int))),
        decreases n - i,
    {
        let ghost pre_items = items@;
        let ghost pre = meter_views(xs@.take(i as int));
        let j = xs[i].to_json();
        items.push(j);
        proof {
            crate::json::lemma_elems_view_push(pre_items, j);
            assert(xs@.take(i as int + 1).drop_last() =~= xs@.take(i as int));
            assert(pre.push(xs@[i as int]@).drop_last() =~= pre);
        }
        i = i + 1;
    }
    proof {
        assert(xs@.take(n as int) =~= xs@);
    }
    Json::Arr(items)
}

/// Each element's model is the model of the element.
pub proof fn lemma_meter_views_index(xs: Seq<MeterValueType>)
    ensures
        meter_views(xs).len() == xs.len(),
        forall|i: int| 0 <= i < xs.len() ==> #[trigger] meter_views(xs)[i] == xs[i]@,
    decreases xs.len(),
{
    if xs.len() > 0 {
        lemma_meter_views_index(xs.drop_last());
        assert(forall|i: int|
            0 <= i < xs.len() - 1 ==> #[trigger] meter_views(xs)[i] == meter_views(
                xs.drop_last(),
            )[i]);
        assert(forall|i: int|
            0 <= i < xs.len() - 1 ==> #[trigger] xs.drop_last()[i] == xs[i]);
        assert(meter_views(xs)[xs.len() - 1] == xs.last()@);
    }
}

/// Decode an array of trees as meter values, first failure wins.
pub fn meter_vec_from_json(items: &Vec<Json>) -> (r: Result<Vec<MeterValueType>, CodecError>)
    ensures
        match r {
            Ok(xs) => dec_meter_seq(elems_view(items@)) == Ok::<Seq<MeterValueV>, ErrorV>(
                meter_views(xs@),
            ),
            Err(e) => dec_meter_seq(elems_view(items@)) == Err::<Seq<MeterValueV>, ErrorV>(e@),
        },
{
    let ghost model = elems_view(items@);
    proof {
        crate::json::lemma_elems_view(items@);
    }
    proof {
        broadcast use vstd::seq_lib::group_seq_lib_default;

        assert(model.skip(0) =~= model);
    }
    let mut out: Vec<MeterValueType> = Vec::new();
    let n = items.len();
    let mut i: usize = 0;
    while i < n
        invariant
            n == items@.len(),
            i <= n,
            model == elems_view(items@),
            model.len() == n,
            forall|k: int| 0 <= k < model.len() ==> model[k] == crate::json::jview(items@[k]),
            forall|rest: Seq<MeterValueV>|
                dec_meter_seq(model.skip(i as int)) == Ok::<Seq<MeterValueV>, ErrorV>(rest)
                    ==> dec_meter_seq(model) == Ok::<Seq<MeterValueV>, ErrorV>(
                    #[trigger] (meter_views(out@) + rest),
                ),
            dec_meter_seq(model.skip(i as int)) is Err ==> dec_meter_seq(model) == dec_meter_seq(
                model.skip(i as int),
            ),
        decreases n - i,
    {
        proof {
            assert(model.skip(i as int).first() == model[i as int]);
            assert(model.skip(i as int).drop_first() =~= model.skip(i as int + 1));
        }
        let v = match MeterValueType::from_json(&items[i]) {
            Ok(v) => v,
            Err(e) => return Err(e),
        };
        let ghost pre_out = out@;
        out.push(v);
        proof {
            broadcast use vstd::seq_lib::group_seq_lib_default;

            assert(out@.drop_last() =~= pre_out);
            assert(meter_views(out@) == meter_views(pre_out).push(v@));
            assert(forall|rest: Seq<MeterValueV>|
                (meter_views(pre_out) + (seq![v@] + rest)) =~= #[trigger] (meter_views(out@)
                    + rest));
        }
        i = i + 1;
    }
    proof {
        broadcast use vstd::seq_lib::group_seq_lib_default;

        assert(model.skip(n as int) =~= Seq::<JsonV>::empty());
        assert(dec_meter_seq(model.skip(n as int)) == Ok::<Seq<MeterValueV>, ErrorV>(
            Seq::<MeterValueV>::empty(),
        ));
        assert(meter_views(out@) + Seq::<MeterValueV>::empty() =~= meter_views(out@));
    }
    Ok(out)
}

impl MeterValueType {
    /// The members of the encoded record, in writing order.
    pub open spec fn spec_members(v: MeterValueV) -> Seq<(Seq<char>, JsonV)> {
        let t1 = req_field("sampledValue"@, JsonV::Arr(sampled_seq_to_json(v.sampled_value)))
            + Seq::<(Seq<char>, JsonV)>::empty();
        req_field("timestamp"@, JsonV::Str(rfc3339_of(v.timestamp))) + t1
    }

    /// The encoded tree of a model value.
    pub open spec fn spec_to_json(v: MeterValueV) -> JsonV {
        JsonV::Obj(Self::spec_members(v))
    }

    /// The decoded model value of a tree, or the first failure.
    pub open spec fn spec_from_json(j: JsonV) -> Result<MeterValueV, ErrorV> {
        if !(j is Obj) {
            Err(
                ErrorV::TypeMismatch {
                    field: Seq::<char>::empty(),
                    expected: "object"@,
                    found: kind_of(j),
                },
            )
        } else {
            let r_ts = dec_req_instant(j, "timestamp"@);
            let r_sv = Self::spec_sampled(j);
            if r_ts is Err {
                Err(r_ts->Err_0)
            } else if r_sv is Err {
                Err(r_sv->Err_0)
            } else {
                Ok(MeterValueV { timestamp: r_ts->Ok_0, sampled_value: r_sv->Ok_0 })
            }
        }
    }

    /// The mandatory sampled-value array of a tree.
    pub open spec fn spec_sampled(j: JsonV) -> Result<Seq<SampledValueV>, ErrorV> {
        match spec_get_obj(j, "sampledValue"@) {
            Option::None => Err(ErrorV::MissingRequiredField { field: "sampledValue"@ }),
            Option::Some(JsonV::Arr(items)) => dec_sampled_seq(items),
            Option::Some(v) => Err(
                ErrorV::TypeMismatch { field: "sampledValue"@, expected: "array"@, found: kind_of(v) },
            ),
        }
    }

    /// Encode: one map-shaped record; the sequence keeps its order.
    pub fn to_json(&self) -> (r: Json)
        requires
            self@.wf(),
        ensures
            r@ == Self::spec_to_json(self@),
    {
        let mut fields: Vec<JsonField> = Vec::new();
        push_field(&mut fields, "timestamp", Json::Str(self.timestamp.to_rfc3339()));
        push_field(&mut fields, "sampledValue", sampled_vec_to_json(&self.sampled_value));
        let r = Json::Obj(fields);
        proof {
            assert(crate::json::fields_view(fields@) =~= Self::spec_members(self@));
        }
        r
    }

    /// Decode, ignoring unknown keys; fails exactly as the model decoder says.
    pub fn from_json(j: &Json) -> (r: Result<Self, CodecError>)
        ensures
            match r {
                Ok(v) => Self::spec_from_json(j@) == Ok::<MeterValueV, ErrorV>(v@),
                Err(e) => Self::spec_from_json(j@) == Err::<MeterValueV, ErrorV>(e@),
            },
    {
        match j {
            Json::Obj(_) => {},
            _ => {
                return Err(
                    CodecError::TypeMismatch {
                        field: String::new(),
                        expected: "object".to_owned(),
                        found: j.kind().to_owned(),
                    },
                );
            },
        }
        let timestamp = match j.get_req_instant("timestamp") {
            Ok(v) => v,
            Err(e) => return Err(e),
        };
        let sampled_value = match j.get("sampledValue") {
            Option::None => {
                return Err(CodecError::MissingRequiredField { field: "sampledValue".to_owned() });
            },
            Option::Some(sub) => match sub {
                Json::Arr(items) => match sampled_vec_from_json(items) {
                    Ok(xs) => xs,
                    Err(e) => return Err(e),
                },
                _ => {
                    return Err(
                        CodecError::TypeMismatch {
                            field: "sampledValue".to_owned(),
                            expected: "array".to_owned(),
                            found: sub.kind().to_owned(),
                        },
                    );
                },
            },
        };
        Ok(MeterValueType { timestamp, sampled_value })
    }
}

/// Decoding an encoded record yields the record back.
pub proof fn lemma_meter_value_round_trip(v: MeterValueV)
    requires
        v.wf(),
    ensures
        MeterValueType::spec_from_json(MeterValueType::spec_to_json(v)) == Ok::<
            MeterValueV,
            ErrorV,
        >(v),
{
    reveal_strlit("timestamp");
    reveal_strlit("sampledValue");
    assert("timestamp"@.len() == 9);
    assert("sampledValue"@.len() == 12);
    let f_ts = JsonV::Str(rfc3339_of(v.timestamp));
    let f_sv = JsonV::Arr(sampled_seq_to_json(v.sampled_value));
    let t1 = req_field("sampledValue"@, f_sv) + Seq::<(Seq<char>, JsonV)>::empty();
    lemma_get_req("timestamp"@, f_ts, t1);
    lemma_instant_round_trip(v.timestamp);
    lemma_skip_req("timestamp"@, f_ts, t1, "sampledValue"@);
    lemma_get_req("sampledValue"@, f_sv, Seq::<(Seq<char>, JsonV)>::empty());
    lemma_sampled_seq_round_trip(v.sampled_value);
}

} // verus!
