//! Command-line argument lookup.
//!
//! The surrounding program collects the process arguments as byte strings
//! and asks the library whether a flag is present and what value a
//! `--name=value` parameter carries.

use vstd::prelude::*;
use crate::bytes::{bytes_eq, bytes_have_prefix, bytes_suffix, has_prefix, views_of};

verus! {

/// Whether some argument equals `flag` exactly.
pub open spec fn flag_present(args: Seq<Seq<u8>>, flag: Seq<u8>) -> bool {
    exists|i: int| 0 <= i < args.len() && args[i] == flag
}

/// The value of the first argument that starts with `name`: its bytes after
/// the separator that follows `name`, or empty when the argument is `name`
/// alone or no argument starts with `name`.
pub open spec fn param_value(args: Seq<Seq<u8>>, name: Seq<u8>) -> Seq<u8>
    decreases args.len(),
{
    if args.len() == 0 {
        Seq::empty()
    } else if has_prefix(args[0], name) {
        if args[0].len() >= name.len() + 1 {
            args[0].subrange(name.len() as int + 1, args[0].len() as int)
        } else {
            Seq::empty()
        }
    } else {
        param_value(args.drop_first(), name)
    }
}

/// Whether the argument list holds `flag` exactly.
pub fn has_flag(args: &Vec<Vec<u8>>, flag: &Vec<u8>) -> (r: bool)
    ensures
        r == flag_present(views_of(args@), flag@),
{
    let mut i: usize = 0;
    while i < args.len()
        invariant
            0 <= i <= args@.len(),
            forall|k: int| 0 <= k < i ==> views_of(args@)[k] != flag@,
        decreases args@.len() - i,
    {
        if bytes_eq(&args[i], flag) {
            proof {
                assert(views_of(args@)[i as int] == flag@);
            }
            return true;
        }
        i = i + 1;
    }
    false
}

/// The value carried by the first `name`-prefixed argument, empty when none.
pub fn get_param(args: &Vec<Vec<u8>>, name: &Vec<u8>) -> (r: Vec<u8>)
    ensures
        r@ == param_value(views_of(args@), name@),
{
    proof {
        assert(views_of(args@).subrange(0, args@.len() as int) =~= views_of(args@));
    }
    let mut i: usize = 0;
    while i < args.len()
        invariant
            0 <= i <= args@.len(),
            param_value(views_of(args@), name@) == param_value(
                views_of(args@).subrange(i as int, args@.len() as int),
                name@,
            ),
        decreases args@.len() - i,
    {
        let rest = Ghost(views_of(args@).subrange(i as int, args@.len() as int));
        proof {
            assert(rest@[0] == views_of(args@)[i as int]);
        }
        if bytes_have_prefix(&args[i], name) {
            if args[i].len() > name.len() {
                let r = bytes_suffix(&args[i], name.len() + 1);
                proof {
                    assert(r@ == param_value(rest@, name@));
                }
                return r;
            } else {
                proof {
                    assert(args@[i as int]@.len() < name@.len() + 1);
                }
                return Vec::new();
            }
        }
        proof {
            assert(rest@.drop_first() =~= views_of(args@).subrange(
                i as int + 1,
                args@.len() as int,
            ));
        }
        i = i + 1;
    }
    proof {
        assert(views_of(args@).subrange(args@.len() as int, args@.len() as int)
            =~= Seq::<Seq<u8>>::empty());
    }
    Vec::new()
}

} // verus!
