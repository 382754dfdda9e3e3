//! Field extraction shared by every value object's decoder.
//!
//! Each helper reads one key of an object tree. A missing key yields `None`
//! (or `MissingRequiredField` for a mandatory key); a present key whose value
//! has the wrong shape yields `TypeMismatch`; timestamps delegate to the
//! instant codec and propagate `MalformedTimestamp`.

use vstd::prelude::*;

use crate::decimal::Decimal;
use crate::error::CodecError;
use crate::error::ErrorV;
use crate::instant::instant_of;
use crate::instant::parses;
use crate::instant::Instant;
use crate::json::kind_of;
use crate::json::spec_get;
use crate::json::spec_get_obj;
use crate::json::Json;
use crate::json::JsonV;

verus! {

/// An optional string field.
pub open spec fn dec_opt_str(j: JsonV, key: Seq<char>) -> Result<Option<Seq<char>>, ErrorV> {
    match spec_get_obj(j, key) {
        Option::None => Ok(Option::None),
        Option::Some(JsonV::Str(s)) => Ok(Option::Some(s)),
        Option::Some(v) => Err(
            ErrorV::TypeMismatch { field: key, expected: "string"@, found: kind_of(v) },
        ),
    }
}

/// A mandatory string field.
pub open spec fn dec_req_str(j: JsonV, key: Seq<char>) -> Result<Seq<char>, ErrorV> {
    match spec_get_obj(j, key) {
        Option::None => Err(ErrorV::MissingRequiredField { field: key }),
        Option::Some(JsonV::Str(s)) => Ok(s),
        Option::Some(v) => Err(
            ErrorV::TypeMismatch { field: key, expected: "string"@, found: kind_of(v) },
        ),
    }
}

/// An optional whole-number field within `lo ..= hi`.
pub open spec fn dec_opt_int(j: JsonV, key: Seq<char>, lo: int, hi: int) -> Result<
    Option<int>,
    ErrorV,
> {
    match spec_get_obj(j, key) {
        Option::None => Ok(Option::None),
        Option::Some(JsonV::Num(d)) => if d.scale == 0 && lo <= d.mantissa <= hi {
            Ok(Option::Some(d.mantissa as int))
        } else {
            Err(ErrorV::TypeMismatch { field: key, expected: "integer"@, found: "number"@ })
        },
        Option::Some(v) => Err(
            ErrorV::TypeMismatch { field: key, expected: "integer"@, found: kind_of(v) },
        ),
    }
}

/// A mandatory whole-number field within `lo ..= hi`.
pub open spec fn dec_req_int(j: JsonV, key: Seq<char>, lo: int, hi: int) -> Result<int, ErrorV> {
    match spec_get_obj(j, key) {
        Option::None => Err(ErrorV::MissingRequiredField { field: key }),
        Option::Some(JsonV::Num(d)) => if d.scale == 0 && lo <= d.mantissa <= hi {
            Ok(d.mantissa as int)
        } else {
            Err(ErrorV::TypeMismatch { field: key, expected: "integer"@, found: "number"@ })
        },
        Option::Some(v) => Err(
            ErrorV::TypeMismatch { field: key, expected: "integer"@, found: kind_of(v) },
        ),
    }
}

/// An optional boolean field.
pub open spec fn dec_opt_bool(j: JsonV, key: Seq<char>) -> Result<Option<bool>, ErrorV> {
    match spec_get_obj(j, key) {
        Option::None => Ok(Option::None),
        Option::Some(JsonV::Bool(b)) => Ok(Option::Some(b)),
        Option::Some(v) => Err(
            ErrorV::TypeMismatch { field: key, expected: "boolean"@, found: kind_of(v) },
        ),
    }
}

/// An optional decimal-number field.
pub open spec fn dec_opt_decimal(j: JsonV, key: Seq<char>) -> Result<Option<Decimal>, ErrorV> {
    match spec_get_obj(j, key) {
        Option::None => Ok(Option::None),
        Option::Some(JsonV::Num(d)) => Ok(Option::Some(d)),
        Option::Some(v) => Err(
            ErrorV::TypeMismatch { field: key, expected: "number"@, found: kind_of(v) },
        ),
    }
}

/// A mandatory decimal-number field.
pub open spec fn dec_req_decimal(j: JsonV, key: Seq<char>) -> Result<Decimal, ErrorV> {
    match spec_get_obj(j, key) {
        Option::None => Err(ErrorV::MissingRequiredField { field: key }),
        Option::Some(JsonV::Num(d)) => Ok(d),
        Option::Some(v) => Err(
            ErrorV::TypeMismatch { field: key, expected: "number"@, found: kind_of(v) },
        ),
    }
}

/// An optional timestamp field: a string in any valid RFC3339 form.
pub open spec fn dec_opt_instant(j: JsonV, key: Seq<char>) -> Result<Option<Instant>, ErrorV> {
    match spec_get_obj(j, key) {
        Option::None => Ok(Option::None),
        Option::Some(JsonV::Str(s)) => if parses(s) {
            Ok(Option::Some(instant_of(s)))
        } else {
            Err(ErrorV::MalformedTimestamp { text: s })
        },
        Option::Some(v) => Err(
            ErrorV::TypeMismatch { field: key, expected: "string"@, found: kind_of(v) },
        ),
    }
}

/// A mandatory timestamp field: a string in any valid RFC3339 form.
pub open spec fn dec_req_instant(j: JsonV, key: Seq<char>) -> Result<Instant, ErrorV> {
    match spec_get_obj(j, key) {
        Option::None => Err(ErrorV::MissingRequiredField { field: key }),
        Option::Some(JsonV::Str(s)) => if parses(s) {
            Ok(instant_of(s))
        } else {
            Err(ErrorV::MalformedTimestamp { text: s })
        },
        Option::Some(v) => Err(
            ErrorV::TypeMismatch { field: key, expected: "string"@, found: kind_of(v) },
        ),
    }
}

/// The mathematical values of a sequence of 32-bit integers.
pub open spec fn int_seq(xs: Seq<i32>) -> Seq<int>
    decreases xs.len(),
{
    if xs.len() == 0 {
        Seq::<int>::empty()
    } else {
        int_seq(xs.drop_last()).push(xs.last() as int)
    }
}

/// One whole-number tree per integer, in order.
pub open spec fn ints_to_json(ns: Seq<int>) -> Seq<JsonV>
    decreases ns.len(),
{
    if ns.len() == 0 {
        Seq::<JsonV>::empty()
    } else {
        ints_to_json(ns.drop_last()).push(
            JsonV::Num(Decimal { mantissa: ns.last() as i64, scale: 0 }),
        )
    }
}

/// The integers of an array of whole-number trees within `lo ..= hi`; `None`
/// when any element has another shape or is out of range.
pub open spec fn ints_of(items: Seq<JsonV>, lo: int, hi: int) -> Option<Seq<int>>
    decreases items.len(),
{
    if items.len() == 0 {
        Option::Some(Seq::<int>::empty())
    } else {
        match ints_of(items.drop_last(), lo, hi) {
            Option::Some(pre) => match items.last() {
                JsonV::Num(d) => if d.scale == 0 && lo <= d.mantissa <= hi {
                    Option::Some(pre.push(d.mantissa as int))
                } else {
                    Option::None
                },
                _ => Option::None,
            },
            Option::None => Option::None,
        }
    }
}

/// A bad prefix spoils the whole array.
pub proof fn lemma_ints_of_none_prefix(items: Seq<JsonV>, i: int, lo: int, hi: int)
    requires
        0 <= i <= items.len(),
        ints_of(items.take(i), lo, hi) is None,
    ensures
        ints_of(items, lo, hi) is None,
    decreases items.len() - i,
{
    if i < items.len() {
        assert(items.take(i + 1).drop_last() =~= items.take(i));
        lemma_ints_of_none_prefix(items, i + 1, lo, hi);
    } else {
        assert(items.take(i) =~= items);
    }
}

/// Reading back the trees an integer sequence wrote yields the sequence.
pub proof fn lemma_ints_round_trip(ns: Seq<int>, lo: int, hi: int)
    requires
        forall|i: int| 0 <= i < ns.len() ==> lo <= #[trigger] ns[i] <= hi,
        lo >= i64::MIN as int,
        hi <= i64::MAX as int,
    ensures
        ints_of(ints_to_json(ns), lo, hi) == Option::Some(ns),
    decreases ns.len(),
{
    if ns.len() > 0 {
        lemma_ints_round_trip(ns.drop_last(), lo, hi);
        assert(ints_to_json(ns).drop_last() =~= ints_to_json(ns.drop_last()));
        assert(ns.drop_last().push(ns.last()) =~= ns);
    }
}

/// An optional field holding an array of whole numbers within `lo ..= hi`.
pub open spec fn dec_opt_int_array(j: JsonV, key: Seq<char>, lo: int, hi: int) -> Result<
    Option<Seq<int>>,
    ErrorV,
> {
    match spec_get_obj(j, key) {
        Option::None => Ok(Option::None),
        Option::Some(JsonV::Arr(items)) => match ints_of(items, lo, hi) {
            Option::Some(ns) => Ok(Option::Some(ns)),
            Option::None => Err(
                ErrorV::TypeMismatch { field: key, expected: "array of integers"@, found: "array"@ },
            ),
        },
        Option::Some(v) => Err(
            ErrorV::TypeMismatch { field: key, expected: "array of integers"@, found: kind_of(v) },
        ),
    }
}

/// The members a mandatory field contributes: exactly one.
pub open spec fn req_field(key: Seq<char>, v: JsonV) -> Seq<(Seq<char>, JsonV)> {
    seq![(key, v)]
}

/// The members an optional field contributes: one when present, none when
/// absent — never a null member.
pub open spec fn opt_field(key: Seq<char>, o: Option<JsonV>) -> Seq<(Seq<char>, JsonV)> {
    match o {
        Option::Some(v) => seq![(key, v)],
        Option::None => Seq::<(Seq<char>, JsonV)>::empty(),
    }
}

/// Looking up another key skips past one field's members.
pub proof fn lemma_skip_req(key: Seq<char>, v: JsonV, rest: Seq<(Seq<char>, JsonV)>, k: Seq<char>)
    requires
        key != k,
    ensures
        spec_get(req_field(key, v) + rest, k) == spec_get(rest, k),
{
    assert((req_field(key, v) + rest).drop_first() =~= rest);
}

/// Looking up another key skips past one optional field's members.
pub proof fn lemma_skip_opt(
    key: Seq<char>,
    o: Option<JsonV>,
    rest: Seq<(Seq<char>, JsonV)>,
    k: Seq<char>,
)
    requires
        key != k,
    ensures
        spec_get(opt_field(key, o) + rest, k) == spec_get(rest, k),
{
    match o {
        Option::Some(v) => {
            assert((opt_field(key, o) + rest).drop_first() =~= rest);
        },
        Option::None => {
            assert(opt_field(key, o) + rest =~= rest);
        },
    }
}

/// A mandatory field's own key finds its value.
pub proof fn lemma_get_req(key: Seq<char>, v: JsonV, rest: Seq<(Seq<char>, JsonV)>)
    ensures
        spec_get(req_field(key, v) + rest, key) == Some(v),
{
    assert((req_field(key, v) + rest)[0] == (key, v));
}

/// An optional field's own key finds its value when present and falls through
/// when absent.
pub proof fn lemma_get_opt(key: Seq<char>, o: Option<JsonV>, rest: Seq<(Seq<char>, JsonV)>)
    ensures
        spec_get(opt_field(key, o) + rest, key) == match o {
            Option::Some(v) => Some(v),
            Option::None => spec_get(rest, key),
        },
{
    match o {
        Option::Some(v) => {
            assert((opt_field(key, o) + rest)[0] == (key, v));
        },
        Option::None => {
            assert(opt_field(key, o) + rest =~= rest);
        },
    }
}

/// Encode a sequence of 32-bit integers as an array of whole-number trees.
pub fn i32_array_to_json(xs: &Vec<i32>) -> (r: Json)
    ensures
        r@ == JsonV::Arr(ints_to_json(int_seq(xs@))),
{
    let mut items: Vec<Json> = Vec::new();
    let n = xs.len();
    let mut i: usize = 0;
    while i < n
        invariant
            n == xs@.len(),
            i <= n,
            crate::json::elems_view(items@) == ints_to_json(int_seq(xs@.take(i as int))),
        decreases n - i,
    {
        let ghost pre_items = items@;
        let ghost pre = int_seq(xs@.take(i as int));
        items.push(Json::Num(Decimal { mantissa: xs[i] as i64, scale: 0 }));
        proof {
            crate::json::lemma_elems_view_push(
                pre_items,
                Json::Num(Decimal { mantissa: xs@[i as int] as i64, scale: 0 }),
            );
            assert(xs@.take(i as int + 1).drop_last() =~= xs@.take(i as int));
            assert(pre.push(xs@[i as int] as int).drop_last() =~= pre);
        }
        i = i + 1;
    }
    proof {
        assert(xs@.take(n as int) =~= xs@);
    }
    Json::Arr(items)
}

impl Json {
    /// Read an optional field holding an array of 32-bit whole numbers.
    pub fn get_opt_i32_array(&self, key: &str) -> (r: Result<Option<Vec<i32>>, CodecError>)
        ensures
            match r {
                Ok(Option::None) => dec_opt_int_array(
                    self@,
                    key@,
                    i32::MIN as int,
                    i32::MAX as int,
                ) == Ok::<Option<Seq<int>>, ErrorV>(Option::None),
                Ok(Option::Some(xs)) => dec_opt_int_array(
                    self@,
                    key@,
                    i32::MIN as int,
                    i32::MAX as int,
                ) == Ok::<Option<Seq<int>>, ErrorV>(Option::Some(int_seq(xs@))),
                Err(e) => dec_opt_int_array(self@, key@, i32::MIN as int, i32::MAX as int) == Err::<
                    Option<Seq<int>>,
                    ErrorV,
                >(e@),
            },
    {
        match self.get(key) {
            Option::None => Ok(Option::None),
            Option::Some(v) => match v {
                Json::Arr(items) => {
                    let ghost model = crate::json::elems_view(items@);
                    proof {
                        crate::json::lemma_elems_view(items@);
                    }
                    let mut out: Vec<i32> = Vec::new();
                    let n = items.len();
                    let mut i: usize = 0;
                    while i < n
                        invariant
                            n == items@.len(),
                            i <= n,
                            crate::json::jview(*v) == JsonV::Arr(
                                crate::json::elems_view(items@),
                            ),
                            model == crate::json::elems_view(items@),
                            model.len() == n,
                            spec_get_obj(self@, key@) == Option::Some(JsonV::Arr(model)),
                            ints_of(model.take(i as int), i32::MIN as int, i32::MAX as int)
                                == Option::Some(int_seq(out@)),
                        decreases n - i,
                    {
                        proof {
                            crate::json::lemma_elems_view(items@);
                            assert(model.take(i as int + 1).drop_last() =~= model.take(i as int));
                        }
                        let bad: bool = match &items[i] {
                            Json::Num(d) => !(d.scale == 0 && d.mantissa >= i32::MIN as i64
                                && d.mantissa <= i32::MAX as i64),
                            _ => true,
                        };
                        if bad {
                            proof {
                                assert(ints_of(
                                    model.take(i as int + 1),
                                    i32::MIN as int,
                                    i32::MAX as int,
                                ) is None);
                                lemma_ints_of_none_prefix(
                                    model,
                                    i as int + 1,
                                    i32::MIN as int,
                                    i32::MAX as int,
                                );
                            }
                            return Err(
                                CodecError::TypeMismatch {
                                    field: key.to_owned(),
                                    expected: "array of integers".to_owned(),
                                    found: "array".to_owned(),
                                },
                            );
                        }
                        let ghost pre_out = out@;
                        let ghost pre = int_seq(out@);
                        match &items[i] {
                            Json::Num(d) => out.push(d.mantissa as i32),
                            _ => {},
                        }
                        proof {
                            assert(out@.drop_last() =~= pre_out);
                            assert(pre.push(out@.last() as int).drop_last() =~= pre);
                        }
                        i = i + 1;
                    }
                    proof {
                        assert(model.take(n as int) =~= model);
                    }
                    Ok(Option::Some(out))
                },
                _ => Err(
                    CodecError::TypeMismatch {
                        field: key.to_owned(),
                        expected: "array of integers".to_owned(),
                        found: v.kind().to_owned(),
                    },
                ),
            },
        }
    }
}

impl Json {
    /// Read an optional string field.
    pub fn get_opt_str(&self, key: &str) -> (r: Result<Option<String>, CodecError>)
        ensures
            match r {
                Ok(Option::None) => dec_opt_str(self@, key@) == Ok::<Option<Seq<char>>, ErrorV>(
                    Option::None,
                ),
                Ok(Option::Some(s)) => dec_opt_str(self@, key@) == Ok::<Option<Seq<char>>, ErrorV>(
                    Option::Some(s@),
                ),
                Err(e) => dec_opt_str(self@, key@) == Err::<Option<Seq<char>>, ErrorV>(e@),
            },
    {
        match self.get(key) {
            Option::None => Ok(Option::None),
            Option::Some(v) => match v {
                Json::Str(s) => Ok(Option::Some(s.clone())),
                _ => Err(
                    CodecError::TypeMismatch {
                        field: key.to_owned(),
                        expected: "string".to_owned(),
                        found: v.kind().to_owned(),
                    },
                ),
            },
        }
    }

    /// Read a mandatory string field.
    pub fn get_req_str(&self, key: &str) -> (r: Result<String, CodecError>)
        ensures
            match r {
                Ok(s) => dec_req_str(self@, key@) == Ok::<Seq<char>, ErrorV>(s@),
                Err(e) => dec_req_str(self@, key@) == Err::<Seq<char>, ErrorV>(e@),
            },
    {
        match self.get(key) {
            Option::None => Err(CodecError::MissingRequiredField { field: key.to_owned() }),
            Option::Some(v) => match v {
                Json::Str(s) => Ok(s.clone()),
                _ => Err(
                    CodecError::TypeMismatch {
                        field: key.to_owned(),
                        expected: "string".to_owned(),
                        found: v.kind().to_owned(),
                    },
                ),
            },
        }
    }

    /// Read an optional 32-bit whole-number field.
    pub fn get_opt_i32(&self, key: &str) -> (r: Result<Option<i32>, CodecError>)
        ensures
            match r {
                Ok(Option::None) => dec_opt_int(self@, key@, i32::MIN as int, i32::MAX as int)
                    == Ok::<Option<int>, ErrorV>(Option::None),
                Ok(Option::Some(n)) => dec_opt_int(self@, key@, i32::MIN as int, i32::MAX as int)
                    == Ok::<Option<int>, ErrorV>(Option::Some(n as int)),
                Err(e) => dec_opt_int(self@, key@, i32::MIN as int, i32::MAX as int) == Err::<
                    Option<int>,
                    ErrorV,
                >(e@),
            },
    {
        match self.get(key) {
            Option::None => Ok(Option::None),
            Option::Some(v) => match v {
                Json::Num(d) => {
                    if d.scale == 0 && d.mantissa >= i32::MIN as i64 && d.mantissa
                        <= i32::MAX as i64 {
                        Ok(Option::Some(d.mantissa as i32))
                    } else {
                        Err(
                            CodecError::TypeMismatch {
                                field: key.to_owned(),
                                expected: "integer".to_owned(),
                                found: "number".to_owned(),
                            },
                        )
                    }
                },
                _ => Err(
                    CodecError::TypeMismatch {
                        field: key.to_owned(),
                        expected: "integer".to_owned(),
                        found: v.kind().to_owned(),
                    },
                ),
            },
        }
    }

    /// Read a mandatory 32-bit whole-number field.
    pub fn get_req_i32(&self, key: &str) -> (r: Result<i32, CodecError>)
        ensures
            match r {
                Ok(n) => dec_req_int(self@, key@, i32::MIN as int, i32::MAX as int) == Ok::<
                    int,
                    ErrorV,
                >(n as int),
                Err(e) => dec_req_int(self@, key@, i32::MIN as int, i32::MAX as int) == Err::<
                    int,
                    ErrorV,
                >(e@),
            },
    {
        match self.get(key) {
            Option::None => Err(CodecError::MissingRequiredField { field: key.to_owned() }),
            Option::Some(v) => match v {
                Json::Num(d) => {
                    if d.scale == 0 && d.mantissa >= i32::MIN as i64 && d.mantissa
                        <= i32::MAX as i64 {
                        Ok(d.mantissa as i32)
                    } else {
                        Err(
                            CodecError::TypeMismatch {
                                field: key.to_owned(),
                                expected: "integer".to_owned(),
                                found: "number".to_owned(),
                            },
                        )
                    }
                },
                _ => Err(
                    CodecError::TypeMismatch {
                        field: key.to_owned(),
                        expected: "integer".to_owned(),
                        found: v.kind().to_owned(),
                    },
                ),
            },
        }
    }

    /// Read a mandatory 64-bit whole-number field.
    pub fn get_req_i64(&self, key: &str) -> (r: Result<i64, CodecError>)
        ensures
            match r {
                Ok(n) => dec_req_int(self@, key@, i64::MIN as int, i64::MAX as int) == Ok::<
                    int,
                    ErrorV,
                >(n as int),
                Err(e) => dec_req_int(self@, key@, i64::MIN as int, i64::MAX as int) == Err::<
                    int,
                    ErrorV,
                >(e@),
            },
    {
        match self.get(key) {
            Option::None => Err(CodecError::MissingRequiredField { field: key.to_owned() }),
            Option::Some(v) => match v {
                Json::Num(d) => {
                    if d.scale == 0 {
                        Ok(d.mantissa)
                    } else {
                        Err(
                            CodecError::TypeMismatch {
                                field: key.to_owned(),
                                expected: "integer".to_owned(),
                                found: "number".to_owned(),
                            },
                        )
                    }
                },
                _ => Err(
                    CodecError::TypeMismatch {
                        field: key.to_owned(),
                        expected: "integer".to_owned(),
                        found: v.kind().to_owned(),
                    },
                ),
            },
        }
    }

    /// Read an optional 64-bit whole-number field.
    pub fn get_opt_i64(&self, key: &str) -> (r: Result<Option<i64>, CodecError>)
        ensures
            match r {
                Ok(Option::None) => dec_opt_int(self@, key@, i64::MIN as int, i64::MAX as int)
                    == Ok::<Option<int>, ErrorV>(Option::None),
                Ok(Option::Some(n)) => dec_opt_int(self@, key@, i64::MIN as int, i64::MAX as int)
                    == Ok::<Option<int>, ErrorV>(Option::Some(n as int)),
                Err(e) => dec_opt_int(self@, key@, i64::MIN as int, i64::MAX as int) == Err::<
                    Option<int>,
                    ErrorV,
                >(e@),
            },
    {
        match self.get(key) {
            Option::None => Ok(Option::None),
            Option::Some(v) => match v {
                Json::Num(d) => {
                    if d.scale == 0 {
                        Ok(Option::Some(d.mantissa))
                    } else {
                        Err(
                            CodecError::TypeMismatch {
                                field: key.to_owned(),
                                expected: "integer".to_owned(),
                                found: "number".to_owned(),
                            },
                        )
                    }
                },
                _ => Err(
                    CodecError::TypeMismatch {
                        field: key.to_owned(),
                        expected: "integer".to_owned(),
                        found: v.kind().to_owned(),
                    },
                ),
            },
        }
    }

    /// Read a mandatory decimal-number field.
    pub fn get_req_decimal(&self, key: &str) -> (r: Result<Decimal, CodecError>)
        ensures
            match r {
                Ok(d) => dec_req_decimal(self@, key@) == Ok::<Decimal, ErrorV>(d),
                Err(e) => dec_req_decimal(self@, key@) == Err::<Decimal, ErrorV>(e@),
            },
    {
        match self.get(key) {
            Option::None => Err(CodecError::MissingRequiredField { field: key.to_owned() }),
            Option::Some(v) => match v {
                Json::Num(d) => Ok(*d),
                _ => Err(
                    CodecError::TypeMismatch {
                        field: key.to_owned(),
                        expected: "number".to_owned(),
                        found: v.kind().to_owned(),
                    },
                ),
            },
        }
    }

    /// Read an optional boolean field.
    pub fn get_opt_bool(&self, key: &str) -> (r: Result<Option<bool>, CodecError>)
        ensures
            match r {
                Ok(o) => dec_opt_bool(self@, key@) == Ok::<Option<bool>, ErrorV>(o),
                Err(e) => dec_opt_bool(self@, key@) == Err::<Option<bool>, ErrorV>(e@),
            },
    {
        match self.get(key) {
            Option::None => Ok(Option::None),
            Option::Some(v) => match v {
                Json::Bool(b) => Ok(Option::Some(*b)),
                _ => Err(
                    CodecError::TypeMismatch {
                        field: key.to_owned(),
                        expected: "boolean".to_owned(),
                        found: v.kind().to_owned(),
                    },
                ),
            },
        }
    }

    /// Read an optional decimal-number field.
    pub fn get_opt_decimal(&self, key: &str) -> (r: Result<Option<Decimal>, CodecError>)
        ensures
            match r {
                Ok(o) => dec_opt_decimal(self@, key@) == Ok::<Option<Decimal>, ErrorV>(o),
                Err(e) => dec_opt_decimal(self@, key@) == Err::<Option<Decimal>, ErrorV>(e@),
            },
    {
        match self.get(key) {
            Option::None => Ok(Option::None),
            Option::Some(v) => match v {
                Json::Num(d) => Ok(Option::Some(*d)),
                _ => Err(
                    CodecError::TypeMismatch {
                        field: key.to_owned(),
                        expected: "number".to_owned(),
                        found: v.kind().to_owned(),
                    },
                ),
            },
        }
    }

    /// Read an optional timestamp field.
    pub fn get_opt_instant(&self, key: &str) -> (r: Result<Option<Instant>, CodecError>)
        ensures
            match r {
                Ok(o) => dec_opt_instant(self@, key@) == Ok::<Option<Instant>, ErrorV>(o),
                Err(e) => dec_opt_instant(self@, key@) == Err::<Option<Instant>, ErrorV>(e@),
            },
    {
        match self.get(key) {
            Option::None => Ok(Option::None),
            Option::Some(v) => match v {
                Json::Str(s) => match Instant::parse_rfc3339(s.as_str()) {
                    Ok(i) => Ok(Option::Some(i)),
                    Err(e) => Err(e),
                },
                _ => Err(
                    CodecError::TypeMismatch {
                        field: key.to_owned(),
                        expected: "string".to_owned(),
                        found: v.kind().to_owned(),
                    },
                ),
            },
        }
    }

    /// Read a mandatory timestamp field.
    pub fn get_req_instant(&self, key: &str) -> (r: Result<Instant, CodecError>)
        ensures
            match r {
                Ok(i) => dec_req_instant(self@, key@) == Ok::<Instant, ErrorV>(i),
                Err(e) => dec_req_instant(self@, key@) == Err::<Instant, ErrorV>(e@),
            },
    {
        match self.get(key) {
            Option::None => Err(CodecError::MissingRequiredField { field: key.to_owned() }),
            Option::Some(v) => match v {
                Json::Str(s) => match Instant::parse_rfc3339(s.as_str()) {
                    Ok(i) => Ok(i),
                    Err(e) => Err(e),
                },
                _ => Err(
                    CodecError::TypeMismatch {
                        field: key.to_owned(),
                        expected: "string".to_owned(),
                        found: v.kind().to_owned(),
                    },
                ),
            },
        }
    }
}

} // verus!
