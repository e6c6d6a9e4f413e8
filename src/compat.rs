//! Warnings about an environment in which the storage operations may not work.
use vstd::prelude::*;
use vstd::string::*;

verus! {

/// What the compatibility check looks at, read from the environment by the caller.
#[derive(Debug, Clone)]
pub struct CompatInputs {
    /// The operating-system name the environment reports, if any.
    pub os_name: Option<String>,
    /// Whether the directory resolver found a writable location.
    pub writable_dir_found: bool,
    /// Whether the primary app-data root is set.
    pub primary_root_set: bool,
    /// Whether the secondary app-data root is set.
    pub secondary_root_set: bool,
}

/// Whether `p` occurs in `s` as a contiguous run.
pub open spec fn contains_run(s: Seq<char>, p: Seq<char>) -> bool {
    exists|i: int| 0 <= i && i + p.len() <= s.len() && #[trigger] s.subrange(i, i + p.len()) == p
}

/// The warning for an environment that reports another operating system.
pub open spec fn foreign_os_text() -> Seq<char> {
    "Not running on Windows OS"@
}

/// The warning for an environment in which no candidate directory is writable.
pub open spec fn no_writable_text() -> Seq<char> {
    "No writable directories found - check permissions"@
}

/// The warning for an environment in which neither app-data root is set.
pub open spec fn restricted_text() -> Seq<char> {
    "Running in highly restricted environment"@
}

/// The warning about the operating system, if any.
pub open spec fn os_warnings(c: CompatInputs) -> Seq<Seq<char>> {
    if c.os_name matches Some(os) && !contains_run(os@, "Windows"@) {
        seq![foreign_os_text()]
    } else {
        Seq::empty()
    }
}

/// The warnings for `c`, in order.
pub open spec fn compat_warnings(c: CompatInputs) -> Seq<Seq<char>> {
    os_warnings(c) + (if !c.writable_dir_found {
        seq![no_writable_text()]
    } else {
        Seq::empty()
    }) + (if !c.primary_root_set && !c.secondary_root_set {
        seq![restricted_text()]
    } else {
        Seq::empty()
    })
}

/// Whether `p` occurs in `s`.
fn str_contains(s: &str, p: &str) -> (r: bool)
    ensures
        r == contains_run(s@, p@),
{
    let n = s.unicode_len();
    let m = p.unicode_len();
    if m > n {
        return false;
    }
    let mut i: usize = 0;
    while i <= n - m
        invariant
            n == s@.len(),
            m == p@.len(),
            m <= n,
            i <= n - m + 1,
            forall|k: int| 0 <= k < i ==> #[trigger] s@.subrange(k, k + m) != p@,
        decreases n - m + 1 - i,
    {
        let mut j: usize = 0;
        let mut same = true;
        while j < m
            invariant
                n == s@.len(),
                m == p@.len(),
                i + m <= n,
                j <= m,
                same == (forall|l: int| 0 <= l < j ==> s@[i + l] == p@[l]),
            decreases m - j,
        {
            if s.get_char(i + j) != p.get_char(j) {
                same = false;
            }
            j = j + 1;
        }
        if same {
            assert(s@.subrange(i as int, i + m) =~= p@);
            return true;
        }
        assert(s@.subrange(i as int, i + m) != p@) by {
            let l = choose|l: int| 0 <= l < m && s@[i + l] != p@[l];
            assert(s@.subrange(i as int, i + m)[l] == s@[i + l]);
        }
        i = i + 1;
    }
    proof {
        assert forall|k: int| 0 <= k && k + p@.len() <= s@.len() implies #[trigger] s@.subrange(
            k,
            k + p@.len(),
        ) != p@ by {
            assert(k < i);
        }
    }
    false
}

/// The warnings about the environment that `inputs` describes: another
/// operating system, no writable directory, neither app-data root set.
pub fn check_windows_compatibility(inputs: &CompatInputs) -> (r: Vec<String>)
    ensures
        r@.map_values(|s: String| s@) == compat_warnings(*inputs),
{
    let mut warnings: Vec<String> = Vec::new();
    let ghost first = os_warnings(*inputs);
    match &inputs.os_name {
        Some(os) => {
            if !str_contains(os.as_str(), "Windows") {
                warnings.push(String::from_str("Not running on Windows OS"));
            }
        },
        None => {},
    }
    assert(warnings@.map_values(|s: String| s@) =~= first);
    if !inputs.writable_dir_found {
        warnings.push(String::from_str("No writable directories found - check permissions"));
    }
    if !inputs.primary_root_set && !inputs.secondary_root_set {
        warnings.push(String::from_str("Running in highly restricted environment"));
    }
    assert(warnings@.map_values(|s: String| s@) =~= compat_warnings(*inputs));
    warnings
}

} // verus!
