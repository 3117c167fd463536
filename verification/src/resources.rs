//! The images the front end shows (avatars, room cover): one slot per
//! image, each loading at most one URL at a time. A result that arrives for
//! a request that has been replaced is dropped.

use vstd::prelude::*;
use crate::models::text_view;
use crate::text::{is_text, trim, trimmed};

verus! {

pub const ACCOUNT_AVATAR: &'static str = "account-avatar";
pub const ROOM_AVATAR: &'static str = "room-avatar";
pub const ROOM_COVER: &'static str = "room-cover";

/// A decoded image for a slot: premultiplied RGBA pixels, row by row.
#[derive(Debug, Clone)]
pub struct DecodedImage {
    pub slot: String,
    pub width: u32,
    pub height: u32,
    pub rgba: Vec<u8>,
}

/// What the front end has to do to its textures.
pub enum ImageChange {
    Upload(DecodedImage),
    Remove(String),
}

/// One image slot: the URL it shows, the revision of its latest request,
/// and whether that image is shown or still loading.
pub struct ImageSlot {
    pub name: String,
    pub revision: u64,
    pub url: Option<String>,
    pub ready: bool,
    pub loading: bool,
}

/// All slots, by name, and the texture changes not yet handed out.
pub struct Resources {
    pub slots: Vec<ImageSlot>,
    pub pending: Vec<ImageChange>,
}

/// The URL a request loads: none when it is blank.
pub open spec fn wanted_url(url: Option<Seq<char>>) -> Option<Seq<char>> {
    match url {
        Some(u) => if trimmed(u).len() == 0 {
            None
        } else {
            Some(u)
        },
        None => None,
    }
}

/// The state of a slot as values.
pub struct SlotView {
    pub revision: u64,
    pub url: Option<Seq<char>>,
    pub ready: bool,
    pub loading: bool,
}

pub open spec fn slot_view(s: ImageSlot) -> SlotView {
    SlotView { revision: s.revision, url: text_view(s.url), ready: s.ready, loading: s.loading }
}

/// A slot never used yet.
pub open spec fn empty_slot() -> SlotView {
    SlotView { revision: 0, url: None, ready: false, loading: false }
}

/// The slot named `name` in `slots`.
pub open spec fn find_slot(slots: Seq<ImageSlot>, name: Seq<char>) -> SlotView
    decreases slots.len(),
{
    if slots.len() == 0 {
        empty_slot()
    } else if slots.last().name@ == name {
        slot_view(slots.last())
    } else {
        find_slot(slots.drop_last(), name)
    }
}

/// Slot `name` after a request for `url`: unchanged when it already shows
/// or loads that URL; otherwise a new revision, loading when there is a
/// URL, empty when there is none.
pub open spec fn requested(slot: SlotView, url: Option<Seq<char>>) -> SlotView {
    if slot.url == wanted_url(url) && (slot.ready || slot.loading) {
        slot
    } else {
        SlotView {
            revision: slot.revision.wrapping_add(1),
            url: wanted_url(url),
            ready: false,
            loading: wanted_url(url) is Some,
        }
    }
}

impl Resources {
    pub open spec fn wf(&self) -> bool {
        forall|a: int, b: int|
            0 <= a < b < self.slots@.len() ==> self.slots@[a].name@ != self.slots@[b].name@
    }

    pub open spec fn slot(&self, name: Seq<char>) -> SlotView {
        find_slot(self.slots@, name)
    }

    pub fn new() -> (r: Self)
        ensures
            r.wf(),
            forall|name: Seq<char>| r.slot(name) == empty_slot(),
            r.pending@.len() == 0,
    {
        Resources { slots: Vec::new(), pending: Vec::new() }
    }

    fn position(&self, name: &str) -> (r: Option<usize>)
        requires
            self.wf(),
        ensures
            match r {
                Some(i) => i < self.slots@.len() && self.slots@[i as int].name@ == name@
                    && find_slot(self.slots@, name@) == slot_view(self.slots@[i as int]),
                None => find_slot(self.slots@, name@) == empty_slot() && forall|a: int|
                    0 <= a < self.slots@.len() ==> self.slots@[a].name@ != name@,
            },
    {
        let mut i: usize = 0;
        while i < self.slots.len()
            invariant
                i <= self.slots@.len(),
                self.wf(),
                forall|a: int| 0 <= a < i ==> self.slots@[a].name@ != name@,
            decreases self.slots@.len() - i,
        {
            if is_text(&self.slots[i].name, name) {
                proof {
                    lemma_find_unique(self.slots@, name@, i as int);
                }
                return Some(i);
            }
            i = i + 1;
        }
        proof {
            lemma_find_absent(self.slots@, name@);
        }
        None
    }

    /// Whether slot `name` shows an image.
    pub fn ready(&self, name: &str) -> (r: bool)
        requires
            self.wf(),
        ensures
            r == self.slot(name@).ready,
    {
        match self.position(name) {
            Some(i) => self.slots[i].ready,
            None => false,
        }
    }

    /// Asks slot `name` to show `url`. Unless the slot already shows or
    /// loads it, the old image is removed and, when there is a URL, the
    /// revision of the new request is returned for the loader.
    pub fn begin(&mut self, name: &str, url: Option<&str>) -> (r: Option<u64>)
        requires
            old(self).wf(),
        ensures
            final(self).wf(),
            final(self).slot(name@) == requested(
                old(self).slot(name@),
                match url {
                    Some(u) => Some(u@),
                    None => None,
                },
            ),
            forall|other: Seq<char>| other != name@ ==> final(self).slot(other) == old(self).slot(other),
            r == (if final(self).slot(name@) != old(self).slot(name@) && final(self).slot(
                name@,
            ).loading {
                Some(final(self).slot(name@).revision)
            } else {
                None
            }),
            final(self).slot(name@) != old(self).slot(name@) ==> {
                &&& final(self).pending@.len() == old(self).pending@.len() + 1
                &&& final(self).pending@.drop_last() == old(self).pending@
                &&& (final(self).pending@.last() matches ImageChange::Remove(n) && n@ == name@)
            },
            final(self).slot(name@) == old(self).slot(name@) ==> final(self).pending@
                == old(self).pending@,
    {
        let ghost url_view = match url {
            Some(u) => Some(u@),
            None => None::<Seq<char>>,
        };
        let wanted: Option<String> = match url {
            Some(u) => {
                if trim(u).as_str().unicode_len() == 0 {
                    None
                } else {
                    Some(String::from_str(u))
                }
            },
            None => None,
        };
        assert(text_view(wanted) == wanted_url(url_view));
        let i = match self.position(name) {
            Some(i) => i,
            None => {
                let ghost before = self.slots@;
                self.slots.push(
                    ImageSlot {
                        name: String::from_str(name),
                        revision: 0,
                        url: None,
                        ready: false,
                        loading: false,
                    },
                );
                proof {
                    assert(self.slots@.drop_last() =~= before);
                    assert forall|other: Seq<char>| other != name@ implies find_slot(
                        self.slots@,
                        other,
                    ) == find_slot(before, other) by {}
                }
                self.slots.len() - 1
            },
        };
        let same = match (&self.slots[i].url, &wanted) {
            (Some(a), Some(b)) => a.eq(b),
            (None, None) => true,
            _ => false,
        };
        if same && (self.slots[i].ready || self.slots[i].loading) {
            return None;
        }
        let ghost before = self.slots@;
        let loading = wanted.is_some();
        let revision = self.slots[i].revision.wrapping_add(1);
        let slot_name = self.slots[i].name.clone();
        self.slots.set(i, ImageSlot { name: slot_name, revision, url: wanted, ready: false, loading });
        proof {
            lemma_find_set(before, i as int, self.slots@[i as int]);
        }
        self.pending.push(ImageChange::Remove(String::from_str(name)));
        if loading {
            Some(revision)
        } else {
            None
        }
    }

    /// Hands a loaded image (or a failure, `None`) to slot `name`; taken only
    /// when it answers the slot's current request, which is then done.
    pub fn complete(&mut self, name: &str, revision: u64, image: Option<DecodedImage>) -> (r: bool)
        requires
            old(self).wf(),
        ensures
            final(self).wf(),
            r == (old(self).slot(name@).revision == revision && old(self).slot(name@).loading),
            r ==> final(self).slot(name@) == (SlotView {
                loading: false,
                ready: image is Some,
                ..old(self).slot(name@)
            }),
            !r ==> final(self).slot(name@) == old(self).slot(name@),
            forall|other: Seq<char>| other != name@ ==> final(self).slot(other) == old(self).slot(other),
            final(self).pending@ == (if r && image is Some {
                old(self).pending@.push(ImageChange::Upload(image->0))
            } else {
                old(self).pending@
            }),
    {
        let i = match self.position(name) {
            Some(i) => i,
            None => {
                return false;
            },
        };
        if self.slots[i].revision != revision || !self.slots[i].loading {
            return false;
        }
        let ghost before = self.slots@;
        let ready = image.is_some();
        let slot_name = self.slots[i].name.clone();
        let url = match &self.slots[i].url {
            Some(u) => Some(u.clone()),
            None => None,
        };
        self.slots.set(i, ImageSlot { name: slot_name, revision, url, ready, loading: false });
        proof {
            lemma_find_set(before, i as int, self.slots@[i as int]);
        }
        match image {
            Some(image) => self.pending.push(ImageChange::Upload(image)),
            None => {},
        }
        true
    }
}

/// The slots the session uses have different names.
pub proof fn lemma_slot_names_differ()
    ensures
        ACCOUNT_AVATAR@ != ROOM_AVATAR@,
        ACCOUNT_AVATAR@ != ROOM_COVER@,
        ROOM_AVATAR@ != ROOM_COVER@,
{
    reveal_strlit("account-avatar");
    reveal_strlit("room-avatar");
    reveal_strlit("room-cover");
    assert(ACCOUNT_AVATAR@[0] != ROOM_AVATAR@[0]);
    assert(ACCOUNT_AVATAR@[0] != ROOM_COVER@[0]);
    assert(ROOM_AVATAR@[5] != ROOM_COVER@[5]);
}

/// Law: once a slot is asked for something else, the answer to its earlier
/// request no longer fits: the new request has another revision.
pub proof fn lemma_replaced_request_dropped(slot: SlotView, url: Option<Seq<char>>)
    ensures
        requested(slot, url) != slot ==> requested(slot, url).revision != slot.revision,
{
}

proof fn lemma_find_unique(slots: Seq<ImageSlot>, name: Seq<char>, i: int)
    requires
        0 <= i < slots.len(),
        slots[i].name@ == name,
        forall|a: int, b: int| 0 <= a < b < slots.len() ==> slots[a].name@ != slots[b].name@,
    ensures
        find_slot(slots, name) == slot_view(slots[i]),
    decreases slots.len(),
{
    if i < slots.len() - 1 {
        assert(slots.last().name@ != name);
        lemma_find_unique(slots.drop_last(), name, i);
    }
}

proof fn lemma_find_absent(slots: Seq<ImageSlot>, name: Seq<char>)
    requires
        forall|a: int| 0 <= a < slots.len() ==> slots[a].name@ != name,
    ensures
        find_slot(slots, name) == empty_slot(),
    decreases slots.len(),
{
    if slots.len() > 0 {
        lemma_find_absent(slots.drop_last(), name);
    }
}

proof fn lemma_find_set(slots: Seq<ImageSlot>, i: int, s: ImageSlot)
    requires
        0 <= i < slots.len(),
        s.name@ == slots[i].name@,
        forall|a: int, b: int| 0 <= a < b < slots.len() ==> slots[a].name@ != slots[b].name@,
    ensures
        find_slot(slots.update(i, s), s.name@) == slot_view(s),
        forall|other: Seq<char>|
            other != s.name@ ==> find_slot(slots.update(i, s), other) == find_slot(slots, other),
        forall|a: int, b: int|
            0 <= a < b < slots.len() ==> slots.update(i, s)[a].name@ != slots.update(i, s)[b].name@,
    decreases slots.len(),
{
    let u = slots.update(i, s);
    if i < slots.len() - 1 {
        assert(u.drop_last() =~= slots.drop_last().update(i, s));
        assert(u.last() == slots.last());
        lemma_find_set(slots.drop_last(), i, s);
        assert forall|other: Seq<char>| other != s.name@ implies find_slot(u, other) == find_slot(
            slots,
            other,
        ) by {
            if slots.last().name@ != other {
                assert(find_slot(u, other) == find_slot(u.drop_last(), other));
                assert(find_slot(slots.drop_last().update(i, s), other) == find_slot(
                    slots.drop_last(),
                    other,
                ));
                assert(find_slot(slots, other) == find_slot(slots.drop_last(), other));
            } else {
                assert(find_slot(u, other) == slot_view(u.last()));
            }
        }
    } else {
        assert(u.drop_last() =~= slots.drop_last());
        assert(u.last() == s);
        assert forall|other: Seq<char>| other != s.name@ implies find_slot(u, other) == find_slot(
            slots,
            other,
        ) by {
            assert(find_slot(u, other) == find_slot(u.drop_last(), other));
        }
    }
}

} // verus!
