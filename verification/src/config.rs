//! Decoding a generic JSON value into a pass configuration.
//!
//! The configuration payload arrives as an opaque JSON document. The host
//! parses it into a generic value; this module holds the explicit,
//! shape-directed branching that turns that value into a
//! [`TransformVisitor`]: the `test` key may be a single pattern string, an
//! array of pattern strings, or absent, and the `remove` key selects the
//! removal policy when it is the string `"effects"`.

use vstd::prelude::*;

use crate::matcher::Matcher;
use crate::matcher::pattern_ok;
use crate::transform::Remove;
use crate::transform::TransformVisitor;

verus! {

/// Why a configuration was rejected. Both kinds are fatal: the pass never
/// starts on a tree when its configuration is refused.
#[derive(Debug, PartialEq, Eq)]
pub enum ConfigError {
    /// The configuration payload does not match the expected shape
    /// (missing, extra or mistyped fields).
    Decode,
    /// A supplied pattern string is not a valid regular expression.
    InvalidPattern,
}

/// A generic JSON value, as far as the configuration reads one. A number's
/// value is never read by the configuration, so it is not kept.
#[derive(Debug)]
pub enum JsonValue {
    Null,
    Bool(bool),
    Number,
    Str(String),
    Array(Vec<JsonValue>),
    Object(Vec<(String, JsonValue)>),
}

/// The first value bound to `key`, scanning the entries in order.
pub open spec fn spec_lookup(entries: Seq<(String, JsonValue)>, key: Seq<char>) -> Option<
    JsonValue,
>
    decreases entries.len(),
{
    if entries.len() == 0 {
        None
    } else if entries[0].0@ == key {
        Some(entries[0].1)
    } else {
        spec_lookup(entries.drop_first(), key)
    }
}

/// Every key is one the configuration knows, and no key occurs twice.
pub open spec fn keys_ok(entries: Seq<(String, JsonValue)>) -> bool {
    &&& forall|i: int|
        0 <= i < entries.len() ==> ((#[trigger] entries[i]).0@ == "test"@ || entries[i].0@
            == "remove"@)
    &&& forall|i: int, j: int|
        0 <= i < j < entries.len() ==> (#[trigger] entries[i]).0@ != (#[trigger] entries[j]).0@
}

/// The accepted shapes of the `test` key: absent, a single string, or an
/// array of strings.
pub open spec fn test_shape_ok(t: Option<JsonValue>) -> bool {
    match t {
        None => true,
        Some(JsonValue::Str(_)) => true,
        Some(JsonValue::Array(xs)) => forall|i: int|
            0 <= i < xs@.len() ==> (#[trigger] xs@[i]) is Str,
        Some(_) => false,
    }
}

/// The whole payload has the expected shape: an object, only known keys,
/// and a well-shaped `test` value.
pub open spec fn config_shape_ok(v: JsonValue) -> bool {
    &&& v matches JsonValue::Object(entries)
    &&& keys_ok(entries@)
    &&& test_shape_ok(spec_lookup(entries@, "test"@))
}

/// All pattern strings of a well-shaped `test` value compile.
pub open spec fn config_patterns_ok(v: JsonValue) -> bool
    recommends
        config_shape_ok(v),
{
    match v {
        JsonValue::Object(entries) => match spec_lookup(entries@, "test"@) {
            None => true,
            Some(JsonValue::Str(s)) => pattern_ok(s@),
            Some(JsonValue::Array(xs)) => forall|i: int|
                0 <= i < xs@.len() ==> ((#[trigger] xs@[i]) matches JsonValue::Str(s)
                    ==> pattern_ok(s@)),
            Some(_) => true,
        },
        _ => true,
    }
}

/// Whether `m` is the matcher a well-shaped `test` value describes: `Null`
/// for an absent key, one pattern for a string, the OR of one pattern per
/// element for an array.
pub open spec fn matcher_matches_config(m: Matcher, v: JsonValue) -> bool
    recommends
        config_shape_ok(v),
{
    match v {
        JsonValue::Object(entries) => match spec_lookup(entries@, "test"@) {
            None => m == Matcher::Null,
            Some(JsonValue::Str(s)) => m matches Matcher::Pattern(p) && p@ == s@,
            Some(JsonValue::Array(xs)) => m matches Matcher::Any(ms) && ms@.len() == xs@.len()
                && forall|i: int|
                0 <= i < xs@.len() ==> ((#[trigger] ms@[i]) matches Matcher::Pattern(p) && xs@[i]
                    matches JsonValue::Str(s) && p@ == s@),
            Some(_) => false,
        },
        _ => false,
    }
}

/// The removal policy a payload selects: `Effects` exactly when the `remove`
/// key holds the string `"effects"`, `All` for any other value or none.
pub open spec fn spec_remove_of(v: JsonValue) -> Remove
    recommends
        v is Object,
{
    match v {
        JsonValue::Object(entries) => match spec_lookup(entries@, "remove"@) {
            Some(JsonValue::Str(s)) => if s@ == "effects"@ {
                Remove::Effects
            } else {
                Remove::All
            },
            _ => Remove::All,
        },
        _ => Remove::All,
    }
}

/// The first value bound to `key`, scanning the entries in order.
fn lookup<'a>(entries: &'a Vec<(String, JsonValue)>, key: &String) -> (r: Option<&'a JsonValue>)
    ensures
        match r {
            Some(found) => spec_lookup(entries@, key@) matches Some(sv) && *found == sv,
            None => spec_lookup(entries@, key@) is None,
        },
{
    let mut i: usize = 0;
    proof {
        assert(entries@.skip(0) =~= entries@);
    }
    while i < entries.len()
        invariant
            i <= entries.len(),
            spec_lookup(entries@, key@) == spec_lookup(entries@.skip(i as int), key@),
        decreases entries.len() - i,
    {
        proof {
            assert(entries@.skip(i as int)[0] == entries@[i as int]);
            assert(entries@.skip(i as int).drop_first() =~= entries@.skip(i as int + 1));
        }
        if entries[i].0 == *key {
            return Some(&entries[i].1);
        }
        i = i + 1;
    }
    proof {
        assert(entries@.skip(i as int).len() == 0);
    }
    None
}

impl TransformVisitor {
    /// Decode a generic JSON payload into a pass configuration.
    ///
    /// Succeeds exactly when the payload has the expected shape and every
    /// supplied pattern compiles; a shape fault is reported as
    /// [`ConfigError::Decode`], a bad pattern in a well-shaped payload as
    /// [`ConfigError::InvalidPattern`]. Nothing is decoded best-effort: an
    /// error means no configuration, and the pass never starts.
    #[verifier::loop_isolation(false)]
    pub fn from_json(v: &JsonValue) -> (r: Result<TransformVisitor, ConfigError>)
        ensures
            r is Ok <==> (config_shape_ok(*v) && config_patterns_ok(*v)),
            r matches Ok(cfg) ==> matcher_matches_config(cfg.test, *v) && cfg.remove
                == spec_remove_of(*v),
            r matches Err(e) ==> (e == ConfigError::Decode <==> !config_shape_ok(*v)),
    {
        let entries = match v {
            JsonValue::Object(entries) => entries,
            _ => {
                return Err(ConfigError::Decode);
            },
        };
        let test_key: String = "test".to_owned();
        let remove_key: String = "remove".to_owned();
        let mut i: usize = 0;
        while i < entries.len()
            invariant
                i <= entries.len(),
                test_key@ == "test"@,
                remove_key@ == "remove"@,
                forall|k: int|
                    0 <= k < i ==> ((#[trigger] entries@[k]).0@ == "test"@ || entries@[k].0@
                        == "remove"@),
                forall|k: int, l: int|
                    0 <= k < l < i ==> (#[trigger] entries@[k]).0@ != (#[trigger] entries@[l]).0@,
            decreases entries.len() - i,
        {
            if !(entries[i].0 == test_key) && !(entries[i].0 == remove_key) {
                return Err(ConfigError::Decode);
            }
            let mut j: usize = 0;
            while j < i
                invariant
                    j <= i < entries.len(),
                    forall|k: int|
                        0 <= k < j ==> (#[trigger] entries@[k]).0@ != entries@[i as int].0@,
                decreases i - j,
            {
                if entries[j].0 == entries[i].0 {
                    return Err(ConfigError::Decode);
                }
                j = j + 1;
            }
            i = i + 1;
        }
        let test = match lookup(entries, &test_key) {
            None => Matcher::Null,
            Some(JsonValue::Str(s)) => {
                match Matcher::new(s.as_str()) {
                    Ok(m) => m,
                    Err(e) => {
                        return Err(e);
                    },
                }
            },
            Some(JsonValue::Array(xs)) => {
                let mut k: usize = 0;
                while k < xs.len()
                    invariant
                        k <= xs.len(),
                        forall|l: int| 0 <= l < k ==> (#[trigger] xs@[l]) is Str,
                    decreases xs.len() - k,
                {
                    match &xs[k] {
                        JsonValue::Str(_) => {},
                        _ => {
                            return Err(ConfigError::Decode);
                        },
                    }
                    k = k + 1;
                }
                let mut ms: Vec<Matcher> = Vec::new();
                let mut k: usize = 0;
                while k < xs.len()
                    invariant
                        k <= xs.len(),
                        ms@.len() == k,
                        forall|l: int| 0 <= l < xs@.len() ==> (#[trigger] xs@[l]) is Str,
                        forall|l: int|
                            0 <= l < k ==> ((#[trigger] ms@[l]) matches Matcher::Pattern(p) && xs@[l]
                                matches JsonValue::Str(s) && p@ == s@),
                        forall|l: int|
                            0 <= l < k ==> ((#[trigger] xs@[l]) matches JsonValue::Str(s)
                                ==> pattern_ok(s@)),
                    decreases xs.len() - k,
                {
                    match &xs[k] {
                        JsonValue::Str(s) => {
                            match Matcher::new(s.as_str()) {
                                Ok(m) => ms.push(m),
                                Err(e) => {
                                    return Err(e);
                                },
                            }
                        },
                        _ => {
                            return Err(ConfigError::Decode);
                        },
                    }
                    k = k + 1;
                }
                Matcher::Any(ms)
            },
            Some(_) => {
                return Err(ConfigError::Decode);
            },
        };
        let effects_word: String = "effects".to_owned();
        let remove = match lookup(entries, &remove_key) {
            Some(JsonValue::Str(s)) => {
                if *s == effects_word {
                    Remove::Effects
                } else {
                    Remove::All
                }
            },
            _ => Remove::All,
        };
        Ok(TransformVisitor { test, remove })
    }
}

} // verus!
