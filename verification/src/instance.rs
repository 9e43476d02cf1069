//! Choosing the per-instance storage directory from the process arguments
//! and the existing entries of the fixed `data` parent directory.
//!
//! First match wins: an explicit `--user-data-dir=` argument is taken
//! verbatim; else a `--profile=` name is placed under `data/`; else the next
//! free `instance-<n>` number under `data/` is taken, one past the highest
//! number already present.

use vstd::prelude::*;
use crate::text::{
    all_digits, dec_rep, digits_val, has_prefix, is_prefix_of, lemma_digits_val_bound,
    lemma_pow10_mono, parse_decimal, pow10, suffix_from,
};

verus! {

/// The value of the first argument carrying the given flag prefix.
pub open spec fn first_with_prefix(args: Seq<String>, p: Seq<char>) -> Option<Seq<char>>
    decreases args.len(),
{
    if args.len() == 0 {
        None
    } else if is_prefix_of(p, args[0]@) {
        Some(args[0]@.subrange(p.len() as int, args[0]@.len() as int))
    } else {
        first_with_prefix(args.drop_first(), p)
    }
}

proof fn lemma_first_with_prefix_skip(args: Seq<String>, p: Seq<char>, i: int)
    requires
        0 <= i <= args.len(),
        forall|j: int| 0 <= j < i ==> !is_prefix_of(p, args[j]@),
    ensures
        first_with_prefix(args, p) == first_with_prefix(args.skip(i), p),
    decreases i,
{
    if i > 0 {
        lemma_first_with_prefix_skip(args.drop_first(), p, i - 1);
        assert(args.drop_first().skip(i - 1) =~= args.skip(i));
    } else {
        assert(args.skip(0) =~= args);
    }
}

/// The instance number a directory entry names, if it is `instance-<n>`
/// with 1 to 19 decimal digits (longer numbers are ignored).
pub open spec fn entry_number(name: Seq<char>) -> Option<nat> {
    let p = "instance-"@;
    if is_prefix_of(p, name) {
        let digits = name.subrange(p.len() as int, name.len() as int);
        if 1 <= digits.len() <= 19 && all_digits(digits) {
            Some(digits_val(digits))
        } else {
            None
        }
    } else {
        None
    }
}

/// The highest instance number among the entries, 0 when none match.
pub open spec fn max_instance(entries: Seq<String>) -> nat
    decreases entries.len(),
{
    if entries.len() == 0 {
        0
    } else {
        let rest = max_instance(entries.drop_last());
        match entry_number(entries.last()@) {
            Some(v) => if v > rest {
                v
            } else {
                rest
            },
            None => rest,
        }
    }
}

/// The resolved directory, as the module doc describes it.
pub open spec fn resolved_dir_chars(args: Seq<String>, entries: Seq<String>) -> Seq<char> {
    match first_with_prefix(args, "--user-data-dir="@) {
        Some(dir) => dir,
        None => match first_with_prefix(args, "--profile="@) {
            Some(name) => "data/"@ + name,
            None => "data/instance-"@ + dec_rep(max_instance(entries) + 1),
        },
    }
}

/// The value of the first argument starting with `flag`, with the flag
/// stripped.
fn find_flag_value(args: &Vec<String>, flag: &str) -> (r: Option<String>)
    ensures
        r is Some <==> first_with_prefix(args@, flag@) is Some,
        r is Some ==> r->Some_0@ == first_with_prefix(args@, flag@)->Some_0,
{
    let flen: usize = flag.unicode_len();
    let mut i: usize = 0;
    while i < args.len()
        invariant
            i <= args@.len(),
            flen == flag@.len(),
            forall|j: int| 0 <= j < i ==> !is_prefix_of(flag@, args@[j]@),
        decreases args@.len() - i,
    {
        let a: &String = &args[i];
        if has_prefix(a.as_str(), flag) {
            proof {
                lemma_first_with_prefix_skip(args@, flag@, i as int);
                assert(args@.skip(i as int)[0] == args@[i as int]);
            }
            return Some(suffix_from(a.as_str(), flen));
        }
        i = i + 1;
    }
    proof {
        lemma_first_with_prefix_skip(args@, flag@, args@.len() as int);
        assert(args@.skip(args@.len() as int).len() == 0);
    }
    None
}

/// Resolves the instance directory from the process arguments and the
/// current entries of the `data` parent directory.
pub fn resolve_instance_dir(args: &Vec<String>, entries: &Vec<String>) -> (r: String)
    ensures
        r@ == resolved_dir_chars(args@, entries@),
{
    if let Some(dir) = find_flag_value(args, "--user-data-dir=") {
        return dir;
    }
    if let Some(name) = find_flag_value(args, "--profile=") {
        return String::from_str("data/").concat(name.as_str());
    }
    let plen: usize = "instance-".unicode_len();
    let mut best: u64 = 0;
    let mut i: usize = 0;
    proof {
        lemma_pow10_mono(0, 19);
    }
    while i < entries.len()
        invariant
            i <= entries@.len(),
            plen == "instance-"@.len(),
            best as nat == max_instance(entries@.take(i as int)),
            (best as nat) < pow10(19),
        decreases entries@.len() - i,
    {
        let e: &String = &entries[i];
        if has_prefix(e.as_str(), "instance-") {
            let digits = suffix_from(e.as_str(), plen);
            match parse_decimal(digits.as_str()) {
                Some(v) => {
                    proof {
                        lemma_digits_val_bound(digits@);
                        lemma_pow10_mono(digits@.len(), 19);
                        assert(entry_number(e@) == Some(v as nat));
                    }
                    if v > best {
                        best = v;
                    }
                },
                None => {
                    proof {
                        assert(entry_number(e@) is None);
                    }
                },
            }
        } else {
            proof {
                assert(entry_number(e@) is None);
            }
        }
        proof {
            assert(entries@.take(i + 1).drop_last() =~= entries@.take(i as int));
            assert(entries@.take(i + 1).last() == entries@[i as int]);
        }
        i = i + 1;
    }
    proof {
        assert(entries@.take(entries@.len() as int) =~= entries@);
        assert(pow10(19) == 10000000000000000000) by {
            reveal_with_fuel(pow10, 20);
        }
    }
    String::from_str("data/instance-").concat(crate::text::u64_to_dec(best + 1).as_str())
}

} // verus!
