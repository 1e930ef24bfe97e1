use vstd::prelude::*;

use std::path::PathBuf;

use crate::error::TafdError;

verus! {

/// The decimal digit character of `d` (for `d < 10`).
pub open spec fn digit_char(d: nat) -> char {
    if d == 0 { '0' } else if d == 1 { '1' } else if d == 2 { '2' } else if d == 3 { '3' }
    else if d == 4 { '4' } else if d == 5 { '5' } else if d == 6 { '6' } else if d == 7 { '7' }
    else if d == 8 { '8' } else { '9' }
}

/// The decimal representation of `n`, without leading zeros.
pub open spec fn decimal(n: nat) -> Seq<char>
    decreases n,
{
    if n < 10 {
        seq![digit_char(n)]
    } else {
        decimal(n / 10).push(digit_char(n % 10))
    }
}

fn digit_str(d: usize) -> (s: &'static str)
    requires
        d < 10,
    ensures
        s@ == seq![digit_char(d as nat)],
{
    proof {
        reveal_strlit("0");
        reveal_strlit("1");
        reveal_strlit("2");
        reveal_strlit("3");
        reveal_strlit("4");
        reveal_strlit("5");
        reveal_strlit("6");
        reveal_strlit("7");
        reveal_strlit("8");
        reveal_strlit("9");
    }
    let s = if d == 0 { "0" } else if d == 1 { "1" } else if d == 2 { "2" } else if d == 3 { "3" }
    else if d == 4 { "4" } else if d == 5 { "5" } else if d == 6 { "6" } else if d == 7 { "7" }
    else if d == 8 { "8" } else { "9" };
    assert(s@ =~= seq![digit_char(d as nat)]);
    s
}

/// The decimal text of `n`.
pub fn decimal_string(n: usize) -> (s: String)
    ensures
        s@ == decimal(n as nat),
    decreases n,
{
    if n < 10 {
        String::from_str(digit_str(n))
    } else {
        let mut s = decimal_string(n / 10);
        s.append(digit_str(n % 10));
        assert(s@ =~= decimal(n as nat));
        s
    }
}

/// The file name of the click variation with the given zero-based index:
/// `click1.wav`, `click2.wav`, ...
pub open spec fn sample_file_name_text(index: nat) -> Seq<char> {
    "click"@ + decimal(index + 1) + ".wav"@
}

/// The file name of the click variation with zero-based `index`.
pub fn sample_file_name(index: usize) -> (name: String)
    requires
        index < usize::MAX,
    ensures
        name@ == sample_file_name_text(index as nat),
{
    let mut name = String::from_str("click");
    let number = decimal_string(index + 1);
    name.append(number.as_str());
    name.append(".wav");
    name
}

/// Number of click variations in the sound pack built into the daemon.
pub const EMBEDDED_VARIATIONS: usize = 8;

/// Where the samples of a sound pack come from.
#[derive(Debug, PartialEq)]
pub enum SoundPackPlan {
    /// The click files to load from the pack directory, in order.
    Files { dir: PathBuf, names: Vec<String> },
    /// The built-in clicks to use, in order, by variation number.
    Embedded { clicks: Vec<usize> },
}

/// The samples of a sound pack: with a pack directory, the names of its
/// `variation_count` click files, `click1.wav` first, to be loaded in that
/// order; without one, the built-in pack, cycling through its
/// `EMBEDDED_VARIATIONS` clicks for `variation_count` samples.
pub fn sample_pack_plan(pack_dir: Option<PathBuf>, variation_count: usize) -> (r: SoundPackPlan)
    ensures
        pack_dir matches Some(d) ==> (r matches SoundPackPlan::Files { dir, names } && dir == d
            && names@.len() == variation_count
            && forall|i: int| 0 <= i < variation_count ==> #[trigger] names@[i]@ == sample_file_name_text(i as nat)),
        pack_dir is None ==> (r matches SoundPackPlan::Embedded { clicks } && clicks@.len() == variation_count
            && forall|i: int| 0 <= i < variation_count ==> #[trigger] clicks@[i] == i % (EMBEDDED_VARIATIONS as int)),
{
    match pack_dir {
        None => {
            let mut clicks: Vec<usize> = Vec::new();
            let mut i: usize = 0;
            while i < variation_count
                invariant
                    i <= variation_count,
                    clicks@.len() == i,
                    forall|j: int| 0 <= j < i ==> #[trigger] clicks@[j] == j % (EMBEDDED_VARIATIONS as int),
                decreases variation_count - i,
            {
                clicks.push(i % EMBEDDED_VARIATIONS);
                i = i + 1;
            }
            SoundPackPlan::Embedded { clicks }
        },
        Some(dir) => {
            let mut names: Vec<String> = Vec::new();
            let mut i: usize = 0;
            while i < variation_count
                invariant
                    i <= variation_count,
                    names@.len() == i,
                    forall|j: int| 0 <= j < i ==> #[trigger] names@[j]@ == sample_file_name_text(j as nat),
                decreases variation_count - i,
            {
                names.push(sample_file_name(i));
                i = i + 1;
            }
            SoundPackPlan::Files { dir, names }
        },
    }
}

/// The error for a click file that is not in the pack directory.
pub fn missing_sample_error(path: PathBuf) -> (e: TafdError)
    ensures
        e matches TafdError::SoundPackLoad { path: p, reason } && p == path && reason@ == "file not found"@,
{
    TafdError::SoundPackLoad { path, reason: String::from_str("file not found") }
}

} // verus!
