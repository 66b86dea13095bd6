//! Decisions of the HTTP layer's handlers: the all-or-nothing read of
//! a cached channel list, and the accepted part names of an image
//! upload.

use vstd::prelude::*;

verus! {

/// Collects a list of optional values: the values, when every one is
/// present; nothing as soon as one is absent.
#[verifier::loop_isolation(false)]
pub fn collect_all_some<T>(items: Vec<Option<T>>) -> (r: Option<Vec<T>>)
    ensures
        r is Some <==> (forall|k: int| 0 <= k < items@.len() ==> (#[trigger] items@[k]) is Some),
        r matches Some(v) ==> v@.len() == items@.len() && (forall|k: int|
            0 <= k < v@.len() ==> items@[k] == Some(#[trigger] v@[k])),
{
    let ghost orig = items@;
    let mut items = items;
    let mut out: Vec<T> = Vec::new();
    proof {
        assert(orig =~= out@.map_values(|t: T| Some(t)) + items@);
    }
    while items.len() > 0
        invariant
            orig == out@.map_values(|t: T| Some(t)) + items@,
            out@.len() + items@.len() == orig.len(),
            forall|k: int| 0 <= k < out@.len() ==> orig[k] == Some(#[trigger] out@[k]),
        decreases items.len(),
    {
        let ghost pre_items = items@;
        let ghost pre_out = out@;
        let x = items.remove(0);
        match x {
            Some(v) => {
                out.push(v);
                proof {
                    assert(orig =~= out@.map_values(|t: T| Some(t)) + items@);
                }
            },
            None => {
                proof {
                    assert(0 <= pre_out.len() < orig.len());
                    assert(orig[pre_out.len() as int] is None);
                    assert(!(forall|k: int|
                        0 <= k < orig.len() ==> (#[trigger] orig[k]) is Some));
                }
                return None;
            },
        }
    }
    proof {
        assert(orig =~= out@.map_values(|t: T| Some(t)));
        assert forall|k: int| 0 <= k < orig.len() implies (#[trigger] orig[k]) is Some by {
            assert(orig[k] == Some(out@[k]));
        }
    }
    Some(out)
}

/// The slot of an upload form part.
#[derive(Clone, Copy, PartialEq, Eq, Structural, Debug)]
pub enum UploadSlot {
    JoinAuthorImage,
    JoinImage,
    JoinThumbnail,
    JoinFooterImage,
}

/// The slot an upload part name addresses; any other name is invalid.
pub open spec fn spec_classify_upload_part(name: Seq<char>) -> Option<UploadSlot> {
    if name == "join.author.image"@ {
        Some(UploadSlot::JoinAuthorImage)
    } else if name == "join.image"@ {
        Some(UploadSlot::JoinImage)
    } else if name == "join.thumbnail"@ {
        Some(UploadSlot::JoinThumbnail)
    } else if name == "join.footer.image"@ {
        Some(UploadSlot::JoinFooterImage)
    } else {
        None
    }
}

/// Classifies an upload part name.
pub fn classify_upload_part(name: &str) -> (r: Option<UploadSlot>)
    ensures
        r == spec_classify_upload_part(name@),
{
    if crate::text::str_eq(name, "join.author.image") {
        Some(UploadSlot::JoinAuthorImage)
    } else if crate::text::str_eq(name, "join.image") {
        Some(UploadSlot::JoinImage)
    } else if crate::text::str_eq(name, "join.thumbnail") {
        Some(UploadSlot::JoinThumbnail)
    } else if crate::text::str_eq(name, "join.footer.image") {
        Some(UploadSlot::JoinFooterImage)
    } else {
        None
    }
}

} // verus!
