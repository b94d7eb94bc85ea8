//! Device registry policy: which capture device a requested name resolves
//! to, given the names the host enumerates and whether it has a default.
use crate::error::{Error, Result};
use vstd::prelude::*;

verus! {

/// The device that a request resolves to.
#[derive(Debug, Clone, Copy, PartialEq, Eq, Structural)]
pub enum DeviceChoice {
    /// The host's default input device.
    SystemDefault,
    /// The enumerated device at this index.
    Listed(usize),
}

/// A requested device name, viewed as characters.
pub open spec fn request_view(requested: Option<&str>) -> Option<Seq<char>> {
    match requested {
        Some(n) => Some(n@),
        None => None,
    }
}

/// `None` and the empty name both stand for the system default.
pub open spec fn asks_default(requested: Option<Seq<char>>) -> bool {
    match requested {
        Some(n) => n.len() == 0,
        None => true,
    }
}

/// `i` is the first position at which `name` is enumerated.
pub open spec fn is_first_match(names: Seq<Seq<char>>, name: Seq<char>, i: int) -> bool {
    &&& 0 <= i < names.len()
    &&& names[i] == name
    &&& forall|j: int| 0 <= j < i ==> names[j] != name
}

/// The first position at which `name` is enumerated (meaningful when it is).
pub open spec fn first_match(names: Seq<Seq<char>>, name: Seq<char>) -> int {
    choose|i: int| is_first_match(names, name, i)
}

/// Resolution ladder: a non-empty name that is enumerated selects its first
/// occurrence; everything else falls back to the system default, and `None`
/// means that no input device is available at all.
pub open spec fn resolve_spec(
    requested: Option<Seq<char>>,
    names: Seq<Seq<char>>,
    has_default: bool,
) -> Option<DeviceChoice> {
    match requested {
        Some(n) if n.len() > 0 && names.contains(n) => Some(
            DeviceChoice::Listed(first_match(names, n) as usize),
        ),
        _ => if has_default {
            Some(DeviceChoice::SystemDefault)
        } else {
            None
        },
    }
}

/// Whether a request names a usable device: the default always is.
pub open spec fn exists_spec(requested: Option<Seq<char>>, names: Seq<Seq<char>>) -> bool {
    match requested {
        Some(n) => n.len() == 0 || names.contains(n),
        None => true,
    }
}

/// The message of the error raised when no input device is available.
pub open spec fn no_device_message() -> Seq<char> {
    "no input device available"@
}

proof fn lemma_first_match_unique(names: Seq<Seq<char>>, name: Seq<char>, i: int)
    requires
        is_first_match(names, name, i),
    ensures
        first_match(names, name) == i,
{
    let k = first_match(names, name);
    assert(is_first_match(names, name, k));
    if k < i {
        assert(names[k] == name);
    } else if i < k {
        assert(names[i] == name);
    }
}

/// Position of the first enumerated name equal to `name`, if any.
fn find_name(name: &str, names: &Vec<String>) -> (r: Option<usize>)
    ensures
        match r {
            Some(i) => is_first_match(names.deep_view(), name@, i as int),
            None => !names.deep_view().contains(name@),
        },
{
    let target = name.to_owned();
    let mut i: usize = 0;
    while i < names.len()
        invariant
            i <= names.len(),
            target@ == name@,
            forall|j: int| 0 <= j < i ==> names.deep_view()[j] != name@,
        decreases names.len() - i,
    {
        if names[i] == target {
            return Some(i);
        }
        i = i + 1;
    }
    proof {
        if names.deep_view().contains(name@) {
            let k = choose|k: int| 0 <= k < names.deep_view().len() && names.deep_view()[k] == name@;
            assert(names.deep_view()[k] != name@);
        }
    }
    None
}

/// Whether `device_name` can be used: `None` or an empty name (the system
/// default) always can, any other name iff it is among `names`.
pub fn device_exists(device_name: Option<&str>, names: &Vec<String>) -> (r: bool)
    ensures
        r == exists_spec(request_view(device_name), names.deep_view()),
{
    match device_name {
        None => true,
        Some(name) => {
            if name.is_empty() {
                true
            } else {
                find_name(name, names).is_some()
            }
        },
    }
}

/// Resolves a requested device name against the enumerated `names`,
/// falling back to the system default for `None`, the empty name and any
/// name that is not enumerated. Fails only when the default is needed and
/// `has_default` is false.
pub fn resolve_device(device_name: Option<&str>, names: &Vec<String>, has_default: bool) -> (r:
    Result<DeviceChoice>)
    ensures
        match r {
            Ok(c) => resolve_spec(request_view(device_name), names.deep_view(), has_default)
                == Some(c),
            Err(e) => {
                &&& resolve_spec(request_view(device_name), names.deep_view(), has_default) is None
                &&& (e matches Error::Audio(m) && m@ == no_device_message())
            },
        },
{
    if let Some(name) = device_name {
        if !name.is_empty() {
            if let Some(i) = find_name(name, names) {
                proof {
                    lemma_first_match_unique(names.deep_view(), name@, i as int);
                }
                return Ok(DeviceChoice::Listed(i));
            }
        }
    }
    if has_default {
        Ok(DeviceChoice::SystemDefault)
    } else {
        let m = "no input device available".to_owned();
        proof {
            reveal_strlit("no input device available");
        }
        Err(Error::Audio(m))
    }
}

/// A non-empty name that no enumerated device carries resolves exactly as
/// no name at all.
pub proof fn lemma_unmatched_resolves_as_default(
    name: Seq<char>,
    names: Seq<Seq<char>>,
    has_default: bool,
)
    requires
        name.len() > 0,
        !names.contains(name),
    ensures
        resolve_spec(Some(name), names, has_default) == resolve_spec(None, names, has_default),
{
}

/// The system default, asked for by `None` or by the empty name, is always
/// accepted.
pub proof fn lemma_default_always_exists(requested: Option<Seq<char>>, names: Seq<Seq<char>>)
    requires
        asks_default(requested),
    ensures
        exists_spec(requested, names),
{
}

} // verus!
