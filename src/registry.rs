use vstd::prelude::*;

use crate::device::{device_id, device_id_spec, Keyboard, Mouse, USAGE_KEYBOARD, USAGE_MOUSE};

verus! {

/// Whether some record in `s` has identifier `id`.
pub open spec fn has_id(s: Seq<Mouse>, id: Seq<char>) -> bool {
    exists|i: int| 0 <= i < s.len() && (#[trigger] s[i]).id@ == id
}

/// No two records in `s` share an identifier.
pub open spec fn unique_ids(s: Seq<Mouse>) -> bool {
    forall|i: int, j: int|
        0 <= i < s.len() && 0 <= j < s.len() && i != j ==> (#[trigger] s[i]).id@ != (#[trigger] s[j]).id@
}

/// The position of the record with identifier `id` in `s`, where there is one.
pub open spec fn index_of(s: Seq<Mouse>, id: Seq<char>) -> int {
    choose|i: int| 0 <= i < s.len() && (#[trigger] s[i]).id@ == id
}

/// `s` with `d` registered: it replaces the record with the same identifier,
/// or is appended when there is none.
pub open spec fn inserted(s: Seq<Mouse>, d: Mouse) -> Seq<Mouse> {
    if has_id(s, d.id@) {
        s.update(index_of(s, d.id@), d)
    } else {
        s.push(d)
    }
}

/// `s` without the record with identifier `id`; `s` itself when there is none.
pub open spec fn removed(s: Seq<Mouse>, id: Seq<char>) -> Seq<Mouse> {
    if has_id(s, id) {
        s.remove(index_of(s, id))
    } else {
        s
    }
}

/// The devices known at one moment, by class, in order of first registration.
pub struct RegistryView {
    pub mice: Seq<Mouse>,
    pub keyboards: Seq<Keyboard>,
}

/// The registry after a "matched" notification of `d` with primary usage
/// `usage`; other usages leave it as it is.
pub open spec fn matched(r: RegistryView, d: Mouse, usage: u16) -> RegistryView {
    if usage == USAGE_MOUSE {
        RegistryView { mice: inserted(r.mice, d), keyboards: r.keyboards }
    } else if usage == USAGE_KEYBOARD {
        RegistryView { mice: r.mice, keyboards: inserted(r.keyboards, d) }
    } else {
        r
    }
}

/// The registry after a "removed" notification of the device `id`: the
/// device leaves whichever class holds it.
pub open spec fn unmatched(r: RegistryView, id: Seq<char>) -> RegistryView {
    RegistryView { mice: removed(r.mice, id), keyboards: removed(r.keyboards, id) }
}

/// A numeric device property as the registry keeps it: truncated to 16 bits,
/// or zero when it could not be read.
pub open spec fn property_u16_spec(raw: Option<i32>) -> u16 {
    match raw {
        Some(v) => v as u16,
        None => 0,
    }
}

/// A text device property as the registry keeps it: empty when it could not
/// be read.
pub open spec fn property_text_spec(raw: Option<String>) -> Seq<char> {
    match raw {
        Some(s) => s@,
        None => Seq::empty(),
    }
}

/// A numeric device property, degraded to zero when it could not be read.
pub fn property_u16(raw: Option<i32>) -> (r: u16)
    ensures
        r == property_u16_spec(raw),
{
    match raw {
        Some(v) => v as u16,
        None => 0,
    }
}

fn property_text(raw: Option<String>) -> (r: String)
    ensures
        r@ == property_text_spec(raw),
{
    match raw {
        Some(s) => s,
        None => String::new(),
    }
}

/// The record of the device behind native handle `handle`, from the
/// properties that could be read; a missing one becomes zero or empty.
pub fn device_record(
    handle: u64,
    vendor_id: Option<i32>,
    product_id: Option<i32>,
    product: Option<String>,
    manufacturer: Option<String>,
) -> (r: Mouse)
    ensures
        r.id@ == device_id_spec(handle as nat),
        r.vender_id == property_u16_spec(vendor_id),
        r.product_id == property_u16_spec(product_id),
        r.product@ == property_text_spec(product),
        r.manufacturer@ == property_text_spec(manufacturer),
{
    Mouse {
        id: device_id(handle),
        vender_id: property_u16(vendor_id),
        product_id: property_u16(product_id),
        product: property_text(product),
        manufacturer: property_text(manufacturer),
    }
}

fn find(v: &Vec<Mouse>, id: &String) -> (r: Option<usize>)
    requires
        unique_ids(v@),
    ensures
        r is None ==> !has_id(v@, id@),
        r matches Some(i) ==> has_id(v@, id@) && i == index_of(v@, id@),
{
    let mut i: usize = 0;
    while i < v.len()
        invariant
            i <= v@.len(),
            unique_ids(v@),
            forall|j: int| 0 <= j < i ==> (#[trigger] v@[j]).id@ != id@,
        decreases v.len() - i,
    {
        if v[i].id == *id {
            proof {
                assert(v@[i as int].id@ == id@);
                let k = index_of(v@, id@);
                assert(has_id(v@, id@));
                assert(0 <= k < v@.len() && v@[k].id@ == id@);
            }
            return Some(i);
        }
        i += 1;
    }
    None
}

fn insert_into(v: &mut Vec<Mouse>, d: Mouse)
    requires
        unique_ids(old(v)@),
    ensures
        unique_ids(final(v)@),
        final(v)@ == inserted(old(v)@, d),
{
    match find(v, &d.id) {
        Some(i) => {
            v.set(i, d);
        },
        None => {
            v.push(d);
        },
    }
}

fn remove_from(v: &mut Vec<Mouse>, id: &String)
    requires
        unique_ids(old(v)@),
    ensures
        unique_ids(final(v)@),
        final(v)@ == removed(old(v)@, id@),
{
    match find(v, id) {
        Some(i) => {
            v.remove(i);
            assert forall|a: int, b: int|
                0 <= a < v@.len() && 0 <= b < v@.len() && a != b implies (#[trigger] v@[a]).id@
                != (#[trigger] v@[b]).id@ by {
                let a0 = if a < i { a } else { a + 1 };
                let b0 = if b < i { b } else { b + 1 };
                assert(old(v)@[a0] == v@[a]);
                assert(old(v)@[b0] == v@[b]);
            }
        },
        None => {},
    }
}

fn copy_all(v: &Vec<Mouse>) -> (r: Vec<Mouse>)
    ensures
        r@ == v@,
{
    let mut r: Vec<Mouse> = Vec::new();
    let mut i: usize = 0;
    while i < v.len()
        invariant
            i <= v@.len(),
            r@ == v@.subrange(0, i as int),
        decreases v.len() - i,
    {
        r.push(v[i].duplicate());
        i += 1;
    }
    assert(v@.subrange(0, v@.len() as int) == v@);
    r
}

proof fn lemma_inserted_twice(s: Seq<Mouse>, a: Mouse, b: Mouse)
    requires
        unique_ids(s),
        a.id@ == b.id@,
    ensures
        inserted(inserted(s, a), b) == inserted(s, b),
{
    let id = a.id@;
    let s1 = inserted(s, a);
    if has_id(s, id) {
        let i = index_of(s, id);
        assert(s1[i].id@ == id);
        assert(has_id(s1, id));
        let k = index_of(s1, id);
        if k != i {
            assert(s[k] == s1[k]);
        }
        assert(s1.update(i, b) == s.update(i, b));
    } else {
        let n = s.len() as int;
        assert(s1[n].id@ == id);
        assert(has_id(s1, id));
        let k = index_of(s1, id);
        if k != n {
            assert(s[k] == s1[k]);
        }
        assert(s1.update(n, b) == s.push(b));
    }
}

/// Two "matched" notifications for one identifier leave the registry as the
/// second alone would: its record replaces the first, with no duplicate. A
/// "removed" notification for an identifier that no class holds changes
/// nothing.
pub proof fn lemma_registry_idempotent(r: RegistryView, a: Mouse, b: Mouse, usage: u16, id: Seq<char>)
    requires
        unique_ids(r.mice),
        unique_ids(r.keyboards),
    ensures
        a.id@ == b.id@ ==> matched(matched(r, a, usage), b, usage) == matched(r, b, usage),
        !has_id(r.mice, id) && !has_id(r.keyboards, id) ==> unmatched(r, id) == r,
{
    if a.id@ == b.id@ {
        lemma_inserted_twice(r.mice, a, b);
        lemma_inserted_twice(r.keyboards, a, b);
    }
}

/// The connected pointer and keyboard devices, each keyed by its identifier.
///
/// Each class is a vector whose identifiers are unique (see `wf`) rather than a
/// hash map keyed by the identifier text: vstd models a `HashMap` as a `Map`
/// only for keys it knows to obey its key model (integers and `bool`), and a
/// `String` key is not among them, while
/// the vector's contents are exactly the `Seq` that the contracts speak of. It
/// also keeps the devices in order of first registration, so snapshots are
/// deterministic.
pub struct DeviceRegistry {
    mice: Vec<Mouse>,
    keyboards: Vec<Keyboard>,
}

impl View for DeviceRegistry {
    type V = RegistryView;

    closed spec fn view(&self) -> RegistryView {
        RegistryView { mice: self.mice@, keyboards: self.keyboards@ }
    }
}

impl DeviceRegistry {
    /// Each class holds at most one record per identifier.
    pub open spec fn wf(&self) -> bool {
        unique_ids(self@.mice) && unique_ids(self@.keyboards)
    }

    /// A registry with no devices.
    pub fn new() -> (r: DeviceRegistry)
        ensures
            r.wf(),
            r@.mice.len() == 0,
            r@.keyboards.len() == 0,
    {
        DeviceRegistry { mice: Vec::new(), keyboards: Vec::new() }
    }

    /// Registers `device` as a mouse or a keyboard by its primary usage,
    /// replacing an earlier record with the same identifier; any other usage
    /// is ignored.
    pub fn on_device_matched(&mut self, device: Mouse, primary_usage: u16)
        requires
            old(self).wf(),
        ensures
            final(self).wf(),
            final(self)@ == matched(old(self)@, device, primary_usage),
    {
        if primary_usage == USAGE_MOUSE {
            insert_into(&mut self.mice, device);
        } else if primary_usage == USAGE_KEYBOARD {
            insert_into(&mut self.keyboards, device);
        }
    }

    /// Forgets the device `id`, of whichever class holds it; a device that
    /// is not registered is no error.
    pub fn on_device_removed(&mut self, id: &String)
        requires
            old(self).wf(),
        ensures
            final(self).wf(),
            final(self)@ == unmatched(old(self)@, id@),
    {
        remove_from(&mut self.mice, id);
        remove_from(&mut self.keyboards, id);
    }

    /// A copy of the registered mice, as they stand now.
    pub fn mice(&self) -> (r: Vec<Mouse>)
        ensures
            r@ == self@.mice,
    {
        copy_all(&self.mice)
    }

    /// A copy of the registered keyboards, as they stand now.
    pub fn keyboards(&self) -> (r: Vec<Keyboard>)
        ensures
            r@ == self@.keyboards,
    {
        copy_all(&self.keyboards)
    }
}

} // verus!
