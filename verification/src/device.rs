//! Device Resolver: picks a capture device from the host's enumeration. With
//! a query, the first device whose name contains the query bytes
//! (case-sensitive substring); without one, the host's default device. The
//! enumeration itself is a read-only query to the audio subsystem and is
//! supplied by the surrounding program as the list of device names.

use vstd::prelude::*;

verus! {

#[derive(Clone, Copy, Debug, PartialEq, Eq, Structural)]
pub enum DeviceError {
    /// A query was given and no device name contains it.
    DeviceNotFound,
    /// No query was given and the host has no default input device.
    NoDefaultDevice,
}

/// `needle` occurs in `hay` starting at position `i`.
pub open spec fn match_at(hay: Seq<u8>, needle: Seq<u8>, i: int) -> bool {
    &&& 0 <= i
    &&& i + needle.len() <= hay.len()
    &&& hay.subrange(i, i + needle.len()) == needle
}

/// `needle` occurs somewhere in `hay`; every sequence contains the empty one.
pub open spec fn contains_bytes(hay: Seq<u8>, needle: Seq<u8>) -> bool {
    exists|i: int| match_at(hay, needle, i)
}

/// The views of a list of names.
pub open spec fn name_views(names: Seq<Vec<u8>>) -> Seq<Seq<u8>> {
    names.map_values(|n: Vec<u8>| n@)
}

/// `i` is the device a query selects: the first name, in enumeration order,
/// that contains the query.
pub open spec fn selects(names: Seq<Seq<u8>>, query: Seq<u8>, i: int) -> bool {
    &&& 0 <= i < names.len()
    &&& contains_bytes(names[i], query)
    &&& forall|j: int| 0 <= j < i ==> !contains_bytes(names[j], query)
}

/// Whether `needle` occurs in `hay` at position `start`.
fn matches_at(hay: &Vec<u8>, needle: &Vec<u8>, start: usize) -> (r: bool)
    requires
        start + needle@.len() <= hay@.len(),
    ensures
        r == match_at(hay@, needle@, start as int),
{
    let hay_len = hay.len();
    let mut j: usize = 0;
    while j < needle.len()
        invariant
            start + needle@.len() <= hay@.len(),
            hay@.len() == hay_len,
            j <= needle@.len(),
            forall|k: int| 0 <= k < j ==> hay@[start + k] == needle@[k],
        decreases needle@.len() - j,
    {
        if hay[start + j] != needle[j] {
            proof {
                assert(hay@.subrange(start as int, start + needle@.len())[j as int] == hay@[start
                    + j]);
            }
            return false;
        }
        j = j + 1;
    }
    proof {
        assert(hay@.subrange(start as int, start + needle@.len()) =~= needle@);
    }
    true
}

/// Case-sensitive substring test over name bytes.
pub fn contains_sub(hay: &Vec<u8>, needle: &Vec<u8>) -> (r: bool)
    ensures
        r == contains_bytes(hay@, needle@),
{
    if needle.len() > hay.len() {
        proof {
            assert forall|i: int| !match_at(hay@, needle@, i) by {}
        }
        return false;
    }
    if needle.len() == 0 {
        proof {
            assert(hay@.subrange(0, 0) =~= needle@);
            assert(match_at(hay@, needle@, 0));
        }
        return true;
    }
    let hay_len = hay.len();
    let last = hay.len() - needle.len();
    let mut i: usize = 0;
    while i <= last
        invariant
            1 <= needle@.len() <= hay@.len(),
            hay@.len() == hay_len,
            last == hay@.len() - needle@.len(),
            i <= last + 1,
            forall|k: int| 0 <= k < i ==> !match_at(hay@, needle@, k),
        decreases last + 1 - i,
    {
        if matches_at(hay, needle, i) {
            return true;
        }
        i = i + 1;
    }
    proof {
        assert forall|k: int| !match_at(hay@, needle@, k) by {
            if 0 <= k <= last {
                assert(!match_at(hay@, needle@, k));
            }
        }
    }
    false
}

/// First device, in enumeration order, whose name contains `query`.
pub fn find_by_name(names: &Vec<Vec<u8>>, query: &Vec<u8>) -> (r: Result<usize, DeviceError>)
    ensures
        match r {
            Ok(i) => selects(name_views(names@), query@, i as int),
            Err(e) => {
                &&& e == DeviceError::DeviceNotFound
                &&& forall|j: int|
                    0 <= j < names@.len() ==> !contains_bytes(name_views(names@)[j], query@)
            },
        },
        r is Ok <==> exists|i: int| selects(name_views(names@), query@, i),
{
    let mut i: usize = 0;
    while i < names.len()
        invariant
            i <= names@.len(),
            forall|j: int| 0 <= j < i ==> !contains_bytes(name_views(names@)[j], query@),
        decreases names@.len() - i,
    {
        if contains_sub(&names[i], query) {
            proof {
                assert(name_views(names@)[i as int] == names@[i as int]@);
                assert(selects(name_views(names@), query@, i as int));
            }
            return Ok(i);
        }
        proof {
            assert(name_views(names@)[i as int] == names@[i as int]@);
        }
        i = i + 1;
    }
    Err(DeviceError::DeviceNotFound)
}

/// Device selection rule. With a query: the first matching device, else
/// `DeviceNotFound`. Without one: the host's default input device — its index
/// in the enumeration, as the surrounding program found it — else
/// `NoDefaultDevice`.
pub fn resolve(
    names: &Vec<Vec<u8>>,
    query: Option<&Vec<u8>>,
    default_index: Option<usize>,
) -> (r: Result<usize, DeviceError>)
    requires
        default_index matches Some(d) ==> (d as int) < names@.len(),
    ensures
        match query {
            Some(q) => {
                &&& (match r {
                    Ok(i) => selects(name_views(names@), q@, i as int),
                    Err(e) => {
                        &&& e == DeviceError::DeviceNotFound
                        &&& forall|j: int|
                            0 <= j < names@.len() ==> !contains_bytes(name_views(names@)[j], q@)
                    },
                })
                &&& (r is Ok <==> exists|i: int| selects(name_views(names@), q@, i))
            },
            None => match default_index {
                Some(d) => r == Ok::<usize, DeviceError>(d),
                None => r == Err::<usize, DeviceError>(DeviceError::NoDefaultDevice),
            },
        },
{
    match query {
        Some(q) => find_by_name(names, q),
        None => match default_index {
            Some(d) => Ok(d),
            None => Err(DeviceError::NoDefaultDevice),
        },
    }
}

} // verus!
