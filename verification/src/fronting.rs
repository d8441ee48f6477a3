//! Fronter snapshots and the canonical status-text formatter.
//!
//! A snapshot is the complete current fronter list at one instant,
//! superseding any prior snapshot.  The formatter renders it as one
//! status line: a configured prefix followed by the names, a
//! placeholder text when nobody fronts, and optional per-name
//! truncation when the rendered line exceeds a maximum length.

use vstd::prelude::*;
use vstd::string::StrSliceExecFns;
use vstd::string::StringExecFns;

verus! {

/// One active member entry at a point in time, produced externally.
/// The core reads only the name.
#[derive(Debug)]
pub struct Fronter {
    pub name: String,
}

impl Clone for Fronter {
    fn clone(&self) -> (r: Self)
        ensures
            r == *self,
    {
        Fronter { name: self.name.clone() }
    }
}

/// Formatting rules for one render of a snapshot.
#[derive(Debug, Clone)]
pub struct FrontingFormat {
    /// Upper bound (in characters) a target allows for the status; no
    /// bound when absent.
    pub max_length: Option<usize>,
    /// Text placed before the names.
    pub prefix: String,
    /// The status published when the fronter list is empty.
    pub status_if_no_fronters: String,
    /// When the rendered status exceeds `max_length`, each name is cut
    /// to this many characters; no truncation when absent.
    pub truncate_names_to_length_if_status_too_long: Option<usize>,
}

/// A name cut to at most `k` characters.
pub open spec fn spec_truncated(name: Seq<char>, k: int) -> Seq<char> {
    if name.len() <= k {
        name
    } else {
        name.take(k)
    }
}

/// Names joined with a comma separator.
pub open spec fn joined(names: Seq<Seq<char>>) -> Seq<char>
    decreases names.len(),
{
    if names.len() == 0 {
        Seq::empty()
    } else if names.len() == 1 {
        names[0]
    } else {
        joined(names.drop_last()) + ", "@ + names.last()
    }
}

/// The names of a fronter list, in order.
pub open spec fn fronter_names(fronters: Seq<Fronter>) -> Seq<Seq<char>> {
    fronters.map_values(|f: Fronter| f.name@)
}

/// The names of a fronter list, each cut to at most `k` characters.
pub open spec fn truncated_names(fronters: Seq<Fronter>, k: int) -> Seq<Seq<char>> {
    fronters.map_values(|f: Fronter| spec_truncated(f.name@, k))
}

/// The canonical status text for a snapshot: the placeholder when the
/// list is empty, otherwise the prefix and the joined names — with the
/// names truncated when the plain render exceeds the maximum length
/// and truncation is configured.
pub open spec fn spec_formatted_status(f: FrontingFormat, fronters: Seq<Fronter>) -> Seq<char> {
    if fronters.len() == 0 {
        f.status_if_no_fronters@
    } else {
        let base = f.prefix@ + joined(fronter_names(fronters));
        match (f.max_length, f.truncate_names_to_length_if_status_too_long) {
            (Some(m), Some(k)) => if base.len() > m {
                f.prefix@ + joined(truncated_names(fronters, k as int))
            } else {
                base
            },
            _ => base,
        }
    }
}

/// A name cut to at most `k` characters.
fn truncate_name(name: &String, k: usize) -> (r: String)
    ensures
        r@ == spec_truncated(name@, k as int),
{
    let n = name.as_str().unicode_len();
    if n <= k {
        name.clone()
    } else {
        name.as_str().substring_char(0, k).to_owned()
    }
}

/// The names joined with a comma separator, each name first cut to
/// `truncate_to` characters when that is given.
fn join_names(fronters: &Vec<Fronter>, truncate_to: Option<usize>) -> (r: String)
    ensures
        truncate_to is None ==> r@ == joined(fronter_names(fronters@)),
        truncate_to matches Some(k) ==> r@ == joined(truncated_names(fronters@, k as int)),
{
    let ghost names = (match truncate_to {
        Option::None => fronter_names(fronters@),
        Option::Some(k) => truncated_names(fronters@, k as int),
    });
    let mut out = String::new();
    let mut i: usize = 0;
    while i < fronters.len()
        invariant
            0 <= i <= fronters@.len(),
            names.len() == fronters@.len(),
            names == (match truncate_to {
                Option::None => fronter_names(fronters@),
                Option::Some(k) => truncated_names(fronters@, k as int),
            }),
            out@ == joined(names.take(i as int)),
        decreases fronters@.len() - i,
    {
        if i > 0 {
            out.append(", ");
        }
        match truncate_to {
            Option::None => {
                out.append(fronters[i].name.as_str());
            },
            Option::Some(k) => {
                let t = truncate_name(&fronters[i].name, k);
                out.append(t.as_str());
            },
        }
        proof {
            let j = i as int;
            assert(names.take(j + 1).drop_last() =~= names.take(j));
            assert(names.take(j + 1).last() == names[j]);
            if j == 0 {
                assert(joined(names.take(1)) == names[0]);
            }
        }
        i = i + 1;
    }
    proof {
        assert(names.take(fronters@.len() as int) =~= names);
    }
    out
}

/// Render the canonical status text for a snapshot.
pub fn format_fronting_status(format: &FrontingFormat, fronters: &Vec<Fronter>) -> (r: String)
    ensures
        r@ == spec_formatted_status(*format, fronters@),
{
    if fronters.len() == 0 {
        return format.status_if_no_fronters.clone();
    }
    let mut base = format.prefix.clone();
    let joined_plain = join_names(fronters, None);
    base.append(joined_plain.as_str());
    match (format.max_length, format.truncate_names_to_length_if_status_too_long) {
        (Some(m), Some(k)) => {
            if base.as_str().unicode_len() > m {
                let mut shortened = format.prefix.clone();
                let joined_short = join_names(fronters, Some(k));
                shortened.append(joined_short.as_str());
                shortened
            } else {
                base
            }
        },
        _ => base,
    }
}

} // verus!
