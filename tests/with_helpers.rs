use model_mapper::with::chrono::{
    try_chrono_duration_to_seconds, try_chrono_fixed_offset_to_naive,
    try_chrono_naive_to_fixed_offset, try_chrono_naive_to_utc, try_chrono_utc_to_naive,
    try_seconds_to_chrono_duration,
    chrono_duration_to_millis, chrono_duration_to_seconds, chrono_fixed_offset_to_naive,
    chrono_naive_to_fixed_offset, chrono_naive_to_utc, chrono_utc_to_naive,
    millis_to_chrono_duration, seconds_to_chrono_duration, try_chrono_duration_to_millis,
    try_millis_to_chrono_duration, DateTimeMapper, Duration, FixedOffsetDateTime, NaiveDateTime,
    MillisecondsMapper, SecondsMapper, UtcDateTime,
};
use model_mapper::with::error::MapperError;
use model_mapper::with::hashmap::{hashmap, hashmap_extra, try_hashmap, try_hashmap_extra};
use model_mapper::with::mappers::{IntoMapper, TryIntoMapper, TypeFallibleMapper, TypeMapper};
use model_mapper::with::wrapper::{
    option_map_inner, option_try_map_inner, vec_map_inner, vec_try_map_inner,
};
use model_mapper::with::closure::{RefMapper, ValueMapper};
use std::collections::HashMap;
use model_mapper::with::option::{
    add_option, add_option_extra, option, option_extra, try_add_option, try_add_option_extra,
    try_option, try_option_extra, try_remove_option, try_remove_option_extra,
};
use model_mapper::with::vec::{try_vec, try_vec_extra, vec_extra};

#[test]
fn option_maps_contained_value() {
    let r: Option<i64> = option(Some(7i32));
    assert_eq!(r, Some(7i64));
    let none: Option<i64> = option(None::<i32>);
    assert_eq!(none, None);
}

#[test]
fn option_extra_maps_nested_wrapper() {
    let r: Option<Vec<i64>> = option_extra(Some(vec![1i32, 2]));
    assert_eq!(r, Some(vec![1i64, 2]));
}

#[test]
fn add_option_wraps() {
    let r: Option<i64> = add_option(3i32);
    assert_eq!(r, Some(3));
}

#[test]
fn try_option_passes_errors_on() {
    let ok: Result<Option<u8>, _> = try_option(Some(200i32));
    assert_eq!(ok.unwrap(), Some(200u8));
    let err: Result<Option<u8>, _> = try_option(Some(300i32));
    assert!(err.is_err());
    let none: Result<Option<u8>, _> = try_option(None::<i32>);
    assert_eq!(none.unwrap(), None);
    let added: Result<Option<u8>, _> = try_add_option(-1i32);
    assert!(added.is_err());
}

#[test]
fn try_remove_option_requires_a_value() {
    let missing: Result<u8, anyhow::Error> = try_remove_option(None::<i32>);
    assert_eq!(missing.unwrap_err().to_string(), "The value was required but not present");
    let present: Result<u8, anyhow::Error> = try_remove_option(Some(5i32));
    assert_eq!(present.unwrap(), 5);
    let bad: Result<u8, anyhow::Error> = try_remove_option(Some(500i32));
    assert!(bad.is_err());
}

#[test]
fn vec_keeps_order() {
    let r: Vec<i64> = model_mapper::with::vec::vec(vec![3i32, 1, 2]);
    assert_eq!(r, vec![3i64, 1, 2]);
    let nested: Vec<Option<i64>> = vec_extra(vec![Some(1i32), None]);
    assert_eq!(nested, vec![Some(1i64), None]);
}

#[test]
fn try_vec_stops_at_first_failure() {
    let ok: Result<Vec<u8>, _> = try_vec(vec![1i32, 2, 3]);
    assert_eq!(ok.unwrap(), vec![1u8, 2, 3]);
    let err: Result<Vec<u8>, _> = try_vec(vec![1i32, 256, -1]);
    assert!(err.is_err());
    let empty: Result<Vec<u8>, _> = try_vec(Vec::<i32>::new());
    assert_eq!(empty.unwrap(), Vec::<u8>::new());
}

#[test]
fn mapper_error_keeps_message() {
    let e = MapperError::new("Date out of range");
    assert_eq!(e.message(), "Date out of range");
    let f = MapperError::from(42);
    assert_eq!(f.message(), "42");
}

#[test]
fn duration_seconds_truncate_toward_zero() {
    assert_eq!(chrono_duration_to_seconds(Duration { secs: -2, nanos: 500_000_000 }), -1);
    assert_eq!(chrono_duration_to_seconds(Duration { secs: 2, nanos: 500_000_000 }), 2);
    let d = seconds_to_chrono_duration(-5);
    assert_eq!(d, Duration { secs: -5, nanos: 0 });
}

#[test]
fn duration_millis_round_trip() {
    assert_eq!(millis_to_chrono_duration(-1), Duration { secs: -1, nanos: 999_000_000 });
    assert_eq!(millis_to_chrono_duration(1500), Duration { secs: 1, nanos: 500_000_000 });
    assert_eq!(chrono_duration_to_millis(Duration { secs: -1, nanos: 999_000_000 }), -1);
    assert_eq!(chrono_duration_to_millis(Duration { secs: -2, nanos: 500_500_000 }), -1499);
    for ms in [0i64, 1, -1, 999, -999, 1000, -1000, 123_456_789, -i64::MAX, i64::MAX] {
        let d = millis_to_chrono_duration(ms);
        assert_eq!(chrono_duration_to_millis(d), ms);
        assert_eq!(try_chrono_duration_to_millis(d).unwrap(), ms);
        assert_eq!(try_millis_to_chrono_duration(ms).unwrap(), d);
    }
}

#[test]
fn date_times_keep_the_instant() {
    let n = NaiveDateTime { secs: 1_700_000_000, nanos: 5 };
    let utc = chrono_naive_to_utc(n);
    assert_eq!(chrono_utc_to_naive(utc), n);
    let fixed = chrono_naive_to_fixed_offset(n);
    assert_eq!(fixed.offset_secs, 0);
    assert_eq!(chrono_fixed_offset_to_naive(fixed), n);
}

#[test]
fn hashmap_converts_keys_and_values() {
    let mut from: HashMap<u8, i32> = HashMap::new();
    from.insert(1, 10);
    from.insert(2, -20);
    let r: HashMap<u16, i64> = hashmap(from);
    assert_eq!(r.len(), 2);
    assert_eq!(r.get(&1), Some(&10));
    assert_eq!(r.get(&2), Some(&-20));
    let empty: HashMap<u16, i64> = hashmap(HashMap::<u8, i32>::new());
    assert!(empty.is_empty());
}

#[test]
fn try_hashmap_fails_on_any_entry() {
    let mut from: HashMap<i32, i32> = HashMap::new();
    from.insert(1, 10);
    from.insert(2, 20);
    let ok: HashMap<u8, u8> = try_hashmap(from.clone()).unwrap();
    assert_eq!(ok.get(&2), Some(&20));
    from.insert(3, 300);
    let bad: Result<HashMap<u8, u8>, anyhow::Error> = try_hashmap(from.clone());
    assert!(bad.is_err());
    from.remove(&3);
    from.insert(-1, 1);
    let bad_key: Result<HashMap<u8, u8>, anyhow::Error> = try_hashmap(from);
    assert!(bad_key.is_err());
}

#[test]
fn into_mapper_forms() {
    let v: i64 = <IntoMapper as TypeMapper<i32, i64>>::map(5);
    assert_eq!(v, 5);
    let o: Option<i64> = <IntoMapper as TypeMapper<i32, i64>>::map_into_option(6);
    assert_eq!(o, Some(6));
    let t = <IntoMapper as TypeMapper<i32, i64>>::try_map(7);
    assert_eq!(t.unwrap(), 7);
    let missing = <IntoMapper as TypeMapper<i32, i64>>::try_map_removing_option(None);
    assert_eq!(missing.unwrap_err().message(), "The value was required but not present");
    let present = <IntoMapper as TypeMapper<i32, i64>>::try_map_removing_option(Some(8));
    assert_eq!(present.unwrap(), 8);
}

#[test]
fn try_into_mapper_forms() {
    let ok = <TryIntoMapper as TypeFallibleMapper<i32, u8>>::try_map(200);
    assert_eq!(ok.unwrap(), 200);
    let bad = <TryIntoMapper as TypeFallibleMapper<i32, u8>>::try_map(-3);
    assert!(bad.is_err());
    let wrapped = <TryIntoMapper as TypeFallibleMapper<i32, u8>>::try_map_into_option(9);
    assert_eq!(wrapped.unwrap(), Some(9));
}

#[test]
fn hashmap_extra_converts_wrapped_values() {
    let mut from: HashMap<Option<u8>, Vec<i32>> = HashMap::new();
    from.insert(Some(1), vec![1, 2]);
    from.insert(None, vec![]);
    let r: HashMap<Option<u16>, Vec<i64>> = hashmap_extra(from);
    assert_eq!(r.len(), 2);
    assert_eq!(r.get(&Some(1)), Some(&vec![1i64, 2]));
    assert_eq!(r.get(&None), Some(&Vec::<i64>::new()));
}

#[test]
fn try_hashmap_extra_stops_on_failure() {
    let mut from: HashMap<Option<i32>, Vec<i32>> = HashMap::new();
    from.insert(Some(1), vec![1, 2]);
    let ok: HashMap<Option<u8>, Vec<u8>> = try_hashmap_extra(from.clone()).unwrap();
    assert_eq!(ok.get(&Some(1)), Some(&vec![1u8, 2]));
    from.insert(Some(2), vec![-5]);
    let bad: Result<HashMap<Option<u8>, Vec<u8>>, anyhow::Error> = try_hashmap_extra(from);
    assert!(bad.is_err());
}

#[test]
fn extra_option_forms() {
    let a: Option<Vec<i64>> = add_option_extra(vec![4i32]);
    assert_eq!(a, Some(vec![4i64]));
    let t: Result<Option<Vec<u8>>, _> = try_option_extra(Some(vec![1i32, 300]));
    assert!(t.is_err());
    let u: Result<Option<Vec<u8>>, _> = try_add_option_extra(vec![7i32]);
    assert_eq!(u.unwrap(), Some(vec![7u8]));
    let missing: Result<Vec<u8>, anyhow::Error> = try_remove_option_extra(None::<Vec<i32>>);
    assert!(missing.is_err());
    let present: Result<Vec<u8>, anyhow::Error> = try_remove_option_extra(Some(vec![9i32]));
    assert_eq!(present.unwrap(), vec![9u8]);
}

#[test]
fn try_vec_extra_stops_on_failure() {
    let ok: Result<Vec<Option<u8>>, _> = try_vec_extra(vec![Some(1i32), None]);
    assert_eq!(ok.unwrap(), vec![Some(1u8), None]);
    let bad: Result<Vec<Option<u8>>, _> = try_vec_extra(vec![Some(1i32), Some(-1)]);
    assert!(bad.is_err());
}

#[test]
fn date_time_mapper_keeps_the_instant() {
    let n = NaiveDateTime { secs: -86_400, nanos: 7 };
    let utc = <DateTimeMapper as TypeMapper<NaiveDateTime, UtcDateTime>>::map(n);
    assert_eq!(utc, UtcDateTime { utc: n });
    let fixed = <DateTimeMapper as TypeMapper<UtcDateTime, FixedOffsetDateTime>>::map(utc);
    assert_eq!(fixed, FixedOffsetDateTime { utc: n, offset_secs: 0 });
    let shifted = FixedOffsetDateTime { utc: n, offset_secs: 3600 };
    assert_eq!(<DateTimeMapper as TypeMapper<FixedOffsetDateTime, NaiveDateTime>>::map(shifted), n);
    assert_eq!(<DateTimeMapper as TypeMapper<FixedOffsetDateTime, UtcDateTime>>::map(shifted), utc);
}

#[test]
fn fallible_chrono_forms_always_succeed() {
    let n = NaiveDateTime { secs: 12, nanos: 34 };
    let utc = try_chrono_naive_to_utc(n).unwrap();
    assert_eq!(try_chrono_utc_to_naive(utc).unwrap(), n);
    let fixed = try_chrono_naive_to_fixed_offset(n).unwrap();
    assert_eq!(try_chrono_fixed_offset_to_naive(fixed).unwrap(), n);
    assert_eq!(try_chrono_duration_to_seconds(Duration { secs: -3, nanos: 1 }).unwrap(), -2);
    assert_eq!(try_seconds_to_chrono_duration(90).unwrap(), Duration { secs: 90, nanos: 0 });
}

#[test]
fn seconds_mapper_forms() {
    let d = Duration { secs: -2, nanos: 500_000_000 };
    assert_eq!(<SecondsMapper as TypeMapper<Duration, i64>>::map(d), -1);
    assert_eq!(<SecondsMapper as TypeMapper<i64, Duration>>::map(7), Duration { secs: 7, nanos: 0 });
    let n = NaiveDateTime { secs: 1_431_648_000, nanos: 9 };
    assert_eq!(<SecondsMapper as TypeMapper<UtcDateTime, i64>>::map(UtcDateTime { utc: n }), 1_431_648_000);
    let ok = <SecondsMapper as TypeFallibleMapper<i64, UtcDateTime>>::try_map(1_431_648_000).unwrap();
    assert_eq!(ok, UtcDateTime { utc: NaiveDateTime { secs: 1_431_648_000, nanos: 0 } });
    let fixed = <SecondsMapper as TypeFallibleMapper<i64, FixedOffsetDateTime>>::try_map(0).unwrap();
    assert_eq!(fixed.offset_secs, 0);
    let far = <SecondsMapper as TypeFallibleMapper<i64, NaiveDateTime>>::try_map(i64::MAX);
    assert_eq!(far.unwrap_err().message(), "Date out of range");
}

#[test]
fn milliseconds_mapper_forms() {
    assert_eq!(<MillisecondsMapper as TypeMapper<i64, Duration>>::map(-1), Duration { secs: -1, nanos: 999_000_000 });
    assert_eq!(<MillisecondsMapper as TypeMapper<Duration, i64>>::map(Duration { secs: 1, nanos: 500_000_000 }), 1500);
    let n = NaiveDateTime { secs: -1, nanos: 250_000_000 };
    assert_eq!(<MillisecondsMapper as TypeMapper<NaiveDateTime, i64>>::map(n), -750);
    let back = <MillisecondsMapper as TypeFallibleMapper<i64, NaiveDateTime>>::try_map(-750).unwrap();
    assert_eq!(back, n);
    let utc = <MillisecondsMapper as TypeFallibleMapper<i64, UtcDateTime>>::try_map(1500).unwrap();
    assert_eq!(utc.utc, NaiveDateTime { secs: 1, nanos: 500_000_000 });
    let bad = <MillisecondsMapper as TypeFallibleMapper<i64, FixedOffsetDateTime>>::try_map(i64::MIN);
    assert!(bad.is_err());
}

#[test]
fn container_map_functions() {
    assert_eq!(option_map_inner(Some(2), |x: i32| x * 10), Some(20));
    assert_eq!(option_map_inner(None::<i32>, |x: i32| x * 10), None);
    let t: Result<Option<u8>, _> = option_try_map_inner(Some(300i32), u8::try_from);
    assert!(t.is_err());
    assert_eq!(vec_map_inner(vec![1, 2, 3], |x: i32| x + 1), vec![2, 3, 4]);
    let ok: Result<Vec<u8>, _> = vec_try_map_inner(vec![1i32, 2], u8::try_from);
    assert_eq!(ok.unwrap(), vec![1u8, 2]);
    let bad: Result<Vec<u8>, _> = vec_try_map_inner(vec![1i32, -2, 3], u8::try_from);
    assert!(bad.is_err());
}

#[test]
fn removing_option_default_forms() {
    let none: i64 = <IntoMapper as TypeMapper<i32, i64>>::map_removing_option_default(None);
    assert_eq!(none, 0);
    let some: i64 = <IntoMapper as TypeMapper<i32, i64>>::map_removing_option_default(Some(4));
    assert_eq!(some, 4);
    let t = <TryIntoMapper as TypeFallibleMapper<i32, u8>>::try_map_removing_option_default(None);
    assert_eq!(t.unwrap(), 0);
    let bad = <TryIntoMapper as TypeFallibleMapper<i32, u8>>::try_map_removing_option_default(Some(-1));
    assert!(bad.is_err());
}

#[test]
fn closures_as_mappers() {
    let by_ref = |x: &String| x.len();
    assert_eq!(RefMapper::<String, usize>::map_value(&by_ref, "abc".to_string()), 3);
    let by_value = |x: i32| x * 2;
    assert_eq!(ValueMapper::<i32, i32>::map_value(&&by_value, 21), 42);
}
