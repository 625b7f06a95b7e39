//! Overrides drawn from the process environment: a variable whose name
//! carries the `APP__` prefix overrides one leaf key of the configuration,
//! the rest of the name naming the key with `__` for the dots and with case
//! ignored, so `APP__DATABASE__PORT` overrides `database.port`.

use vstd::prelude::*;

use crate::fragment::ConfigEntry;
use crate::fragment::ConfigValue;
use crate::fragment::EntryModel;
use crate::fragment::Fragment;
use crate::fragment::ValueModel;
use crate::text::lower_char;
use crate::text::str_eq;
use crate::text::string_from_chars;
use crate::text::to_lower_char;

verus! {

/// The dotted key the tail of an override name denotes: every `__` becomes
/// a dot, every ASCII letter becomes lower-case.
pub open spec fn spec_convert_tail(s: Seq<char>) -> Seq<char>
    decreases s.len(),
{
    if s.len() == 0 {
        Seq::empty()
    } else if s.len() >= 2 && s[0] == '_' && s[1] == '_' {
        seq!['.'] + spec_convert_tail(s.skip(2))
    } else {
        seq![lower_char(s[0])] + spec_convert_tail(s.skip(1))
    }
}

/// The leaf key an environment variable overrides: the converted tail of
/// its name when the name carries the `APP__` prefix, nothing otherwise.
pub open spec fn spec_override_key(name: Seq<char>) -> Option<Seq<char>> {
    if name.len() >= 5 && name.subrange(0, 5) == "APP__"@ {
        Some(spec_convert_tail(name.skip(5)))
    } else {
        None
    }
}

/// The override fragment a list of environment variables yields: one entry
/// per variable with the `APP__` prefix, in the order given, each value
/// taken as text.
pub open spec fn spec_overrides(vars: Seq<(String, String)>) -> Seq<EntryModel>
    decreases vars.len(),
{
    if vars.len() == 0 {
        Seq::empty()
    } else {
        spec_overrides(vars.drop_last()) + match spec_override_key(vars.last().0@) {
            Some(key) => seq![EntryModel { key, value: ValueModel::Text(vars.last().1@) }],
            None => Seq::empty(),
        }
    }
}

/// Converts the tail of an override name to the dotted key it denotes.
fn convert_tail(s: &str) -> (r: String)
    ensures
        r@ == spec_convert_tail(s@),
{
    let len = s.unicode_len();
    let mut out: Vec<char> = Vec::new();
    let mut i: usize = 0;
    proof {
        assert(s@.skip(0) =~= s@);
        assert(out@ + spec_convert_tail(s@) =~= spec_convert_tail(s@));
    }
    while i < len
        invariant
            i <= len == s@.len(),
            spec_convert_tail(s@) == out@ + spec_convert_tail(s@.skip(i as int)),
        decreases len - i,
    {
        let ghost rest = s@.skip(i as int);
        proof {
            assert(rest[0] == s@[i as int]);
            assert(rest.len() >= 2 ==> rest[1] == s@[i as int + 1]);
        }
        let c = s.get_char(i);
        if c == '_' && i + 1 < len && s.get_char(i + 1) == '_' {
            out.push('.');
            proof {
                assert(rest.skip(2) =~= s@.skip(i as int + 2));
                assert(spec_convert_tail(rest) == seq!['.'] + spec_convert_tail(
                    s@.skip(i as int + 2),
                ));
                assert(out@ + spec_convert_tail(s@.skip(i as int + 2)) =~= spec_convert_tail(
                    s@,
                ));
            }
            i = i + 2;
        } else {
            out.push(to_lower_char(c));
            proof {
                assert(rest.skip(1) =~= s@.skip(i as int + 1));
                assert(spec_convert_tail(rest) == seq![lower_char(rest[0])] + spec_convert_tail(
                    s@.skip(i as int + 1),
                ));
                assert(out@ + spec_convert_tail(s@.skip(i as int + 1)) =~= spec_convert_tail(
                    s@,
                ));
            }
            i = i + 1;
        }
    }
    proof {
        assert(s@.skip(len as int) =~= Seq::<char>::empty());
        assert(out@ + spec_convert_tail(s@.skip(len as int)) =~= out@);
    }
    string_from_chars(&out)
}

/// The leaf key this environment variable overrides, if any.
pub fn override_key(name: &str) -> (r: Option<String>)
    ensures
        match r {
            Some(k) => spec_override_key(name@) == Some(k@),
            None => spec_override_key(name@) is None,
        },
{
    let len = name.unicode_len();
    if len < 5 {
        return None;
    }
    let prefix = name.substring_char(0, 5);
    if str_eq(prefix, "APP__") {
        let tail = name.substring_char(5, len);
        proof {
            assert(tail@ =~= name@.skip(5));
        }
        Some(convert_tail(tail))
    } else {
        None
    }
}

/// Builds the override fragment from the process environment, handed in as
/// a list of variable names with their values.
pub fn overrides_from_env(vars: &Vec<(String, String)>) -> (r: Fragment)
    ensures
        r@ == spec_overrides(vars@),
{
    let mut entries: Vec<ConfigEntry> = Vec::new();
    let n = vars.len();
    let mut i: usize = 0;
    proof {
        assert(vars@.subrange(0, 0) =~= Seq::<(String, String)>::empty());
        assert(entries@.map_values(|e: ConfigEntry| e@) =~= spec_overrides(vars@.subrange(0, 0)));
    }
    while i < n
        invariant
            i <= n == vars@.len(),
            entries@.map_values(|e: ConfigEntry| e@) == spec_overrides(
                vars@.subrange(0, i as int),
            ),
        decreases n - i,
    {
        proof {
            assert(vars@.subrange(0, i + 1).drop_last() =~= vars@.subrange(0, i as int));
            assert(vars@.subrange(0, i + 1).last() == vars@[i as int]);
        }
        match override_key(vars[i].0.as_str()) {
            Some(key) => {
                entries.push(ConfigEntry { key, value: ConfigValue::Text(vars[i].1.clone()) });
                proof {
                    assert(entries@.map_values(|e: ConfigEntry| e@) =~= spec_overrides(
                        vars@.subrange(0, i + 1),
                    ));
                }
            },
            None => {
                proof {
                    assert(entries@.map_values(|e: ConfigEntry| e@) =~= spec_overrides(
                        vars@.subrange(0, i + 1),
                    ));
                }
            },
        }
        i = i + 1;
    }
    proof {
        assert(vars@.subrange(0, n as int) =~= vars@);
    }
    Fragment { entries }
}

} // verus!
