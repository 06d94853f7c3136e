//! Finding the metadata node of an image node.
//!
//! uvcvideo registers the metadata node against the same USB interface as its
//! image node, so the pairing is "same interface, different node". The
//! interface alone is not enough on a camera whose streams all share one
//! interface: within a stream the kernel registers the metadata node immediately after its image
//! node, so the right sibling is the lowest-numbered one above the image node.
use vstd::prelude::*;
use crate::text::{chars_of, comes_before, copy_range, digit_of, is_digit, number, precedes,
    precedes_irreflexive, precedes_total, precedes_transitive, read_number, texts};

verus! {

/// Whether qualification found an illumination metadata node.
#[derive(Clone, Copy, Debug, PartialEq, Eq, Structural)]
pub enum IlluminationMetadataPresence {
    Present,
    Absent,
}

/// The decimal digits that a text ends with.
pub open spec fn trailing_digits(s: Seq<char>) -> Seq<char>
    decreases s.len(),
{
    if s.len() > 0 && is_digit(s.last(), 10) {
        trailing_digits(s.drop_last()).push(s.last())
    } else {
        Seq::<char>::empty()
    }
}

/// The number that a node's path ends with, or the greatest number where it ends with none that
/// fits.
pub open spec fn number_of(node: Seq<char>) -> int {
    let digits = trailing_digits(node);
    if digits.len() > 0 && number(digits, 10) is Some && number(digits, 10)->0 <= u32::MAX {
        number(digits, 10)->0
    } else {
        u32::MAX as int
    }
}

/// The trailing integer of a `/dev/videoN` path, for ordering. A path with no
/// trailing digits sorts last and then by name, so an unexpected shape is
/// merely deprioritised rather than treated as node zero.
pub fn node_number(node: &str) -> (r: u32)
    ensures
        r == number_of(node@),
{
    let chars: Vec<char> = chars_of(node);
    let mut from: usize = chars.len();
    assert(chars@.take(from as int) =~= chars@);
    assert(trailing_digits(chars@) =~= trailing_digits(chars@.take(from as int))
        + chars@.subrange(from as int, chars@.len() as int));
    loop
        invariant_except_break
            from <= chars@.len(),
            trailing_digits(chars@) == trailing_digits(chars@.take(from as int)) + chars@.subrange(
                from as int,
                chars@.len() as int,
            ),
        ensures
            from <= chars@.len(),
            trailing_digits(chars@) == chars@.subrange(from as int, chars@.len() as int),
        decreases from,
    {
        let ghost head = chars@.take(from as int);
        if from == 0 {
            assert(trailing_digits(head) =~= Seq::<char>::empty());
            assert(Seq::<char>::empty() + chars@.subrange(from as int, chars@.len() as int)
                =~= chars@.subrange(from as int, chars@.len() as int));
            break;
        }
        let decimal: bool = match digit_of(chars[from - 1]) {
            Some(d) => d < 10,
            None => false,
        };
        if !decimal {
            assert(trailing_digits(head) =~= Seq::<char>::empty());
            assert(Seq::<char>::empty() + chars@.subrange(from as int, chars@.len() as int)
                =~= chars@.subrange(from as int, chars@.len() as int));
            break;
        }
        assert(head.drop_last() =~= chars@.take(from - 1));
        assert(trailing_digits(chars@) =~= trailing_digits(chars@.take(from - 1))
            + chars@.subrange(from - 1, chars@.len() as int));
        from = from - 1;
    }
    if from == chars.len() {
        return u32::MAX;
    }
    let digits: Vec<char> = copy_range(chars.as_slice(), from, chars.len());
    match read_number(digits.as_slice(), 10, u32::MAX) {
        Some(n) => n,
        None => u32::MAX,
    }
}

/// Map a discovered metadata node onto qualification-record evidence.
///
/// Presence, not the node path: `/dev/videoN` numbering is not stable across reboots and a
/// reshuffle must never look like a hardware change.
pub fn presence_from_discovered(found: Option<String>) -> (r: IlluminationMetadataPresence)
    ensures
        r == (if found is Some {
            IlluminationMetadataPresence::Present
        } else {
            IlluminationMetadataPresence::Absent
        }),
{
    if found.is_some() {
        IlluminationMetadataPresence::Present
    } else {
        IlluminationMetadataPresence::Absent
    }
}

/// Whether the candidate at an index is the first with a number above the image node's.
pub open spec fn is_next_node(image: Seq<char>, candidates: Seq<Seq<char>>, i: int) -> bool {
    &&& 0 <= i < candidates.len()
    &&& number_of(candidates[i]) > number_of(image)
    &&& forall|j: int| 0 <= j < i ==> number_of(#[trigger] candidates[j]) <= number_of(image)
}

/// The first candidate above the image node, if there is one.
pub fn next_node(image_device: &str, candidates: &Vec<String>) -> (r: Option<usize>)
    ensures
        match r {
            Some(i) => is_next_node(image_device@, texts(candidates@), i as int),
            None => forall|i: int| !#[trigger] is_next_node(image_device@, texts(candidates@), i),
        },
{
    let image: u32 = node_number(image_device);
    let mut i: usize = 0;
    while i < candidates.len()
        invariant
            i <= candidates@.len(),
            image == number_of(image_device@),
            forall|j: int|
                0 <= j < i ==> number_of(#[trigger] texts(candidates@)[j]) <= number_of(
                    image_device@,
                ),
        decreases candidates@.len() - i,
    {
        if node_number(candidates[i].as_str()) > image {
            return Some(i);
        }
        i = i + 1;
    }
    None
}

/// The sibling that is this image node's own metadata node: the first
/// same-interface candidate above the image node, and only when it offers
/// the format. `candidates` are sorted lowest node number first, as [`siblings`] returns them.
///
/// A candidate below the image node is an earlier stream's queue.
/// Scanning forward past a non-metadata node would borrow a later stream's
/// queue: an image node can legitimately have no metadata
/// node while the next stream has both. Either way a wrong queue's
/// timestamps never match this stream's frames, so no pair means no
/// reader, and illumination falls back to brightness by design.
pub fn pick_metadata_sibling(
    image_device: &str,
    candidates: Vec<String>,
    offers: impl Fn(&str) -> bool,
) -> (r: Option<String>)
    requires
        forall|node: &str| call_requires(offers, (node,)),
    ensures
        match r {
            Some(node) => exists|i: int, asked: &str|
                {
                    &&& is_next_node(image_device@, texts(candidates@), i)
                    &&& asked@ == node@
                    &&& #[trigger] call_ensures(offers, (asked,), true)
                    &&& #[trigger] texts(candidates@)[i] == node@
                },
            None => forall|i: int|
                #[trigger] is_next_node(image_device@, texts(candidates@), i) ==> exists|
                    asked: &str,
                |
                    asked@ == texts(candidates@)[i] && #[trigger] call_ensures(
                        offers,
                        (asked,),
                        false,
                    ),
        },
{
    match next_node(image_device, &candidates) {
        Some(i) => {
            let node: String = candidates[i].clone();
            let asked: &str = node.as_str();
            let offered: bool = offers(asked);
            assert(texts(candidates@)[i as int] == node@);
            if offered {
                assert(call_ensures(offers, (asked,), true));
                Some(candidates[i].clone())
            } else {
                assert(call_ensures(offers, (asked,), false));
                assert forall|j: int| #[trigger] is_next_node(
                    image_device@,
                    texts(candidates@),
                    j,
                ) implies j == i by {
                    if j < i {
                        assert(number_of(texts(candidates@)[j]) <= number_of(image_device@));
                    } else if i < j {
                        assert(number_of(texts(candidates@)[i as int]) <= number_of(
                            image_device@,
                        ));
                    }
                }
                None
            }
        },
        None => None,
    }
}

/// The node to read illumination metadata from: none where the kill switch is set, else the
/// image node's own metadata node.
pub fn metadata_node_for(
    disabled: bool,
    ir_device: &str,
    candidates: Vec<String>,
    offers: impl Fn(&str) -> bool,
) -> (r: Option<String>)
    requires
        forall|node: &str| call_requires(offers, (node,)),
    ensures
        disabled ==> r is None,
        r is Some ==> exists|i: int, asked: &str|
            {
                &&& is_next_node(ir_device@, texts(candidates@), i)
                &&& asked@ == r->0@
                &&& #[trigger] call_ensures(offers, (asked,), true)
                &&& #[trigger] texts(candidates@)[i] == r->0@
            },
        r is None && !disabled ==> forall|i: int|
            #[trigger] is_next_node(ir_device@, texts(candidates@), i) ==> exists|asked: &str|
                asked@ == texts(candidates@)[i] && #[trigger] call_ensures(
                    offers,
                    (asked,),
                    false,
                ),
{
    if disabled {
        return None;
    }
    pick_metadata_sibling(ir_device, candidates, offers)
}

// ---------------------------------------------------------------------------------------------
// Siblings
// ---------------------------------------------------------------------------------------------

/// A node of the video4linux class: its name, and the interface that its `device` link leads to
/// where it has one that can be read.
#[derive(Clone, Debug, PartialEq, Eq)]
pub struct ClassEntry {
    pub name: String,
    pub interface: Option<String>,
}

/// Whether an entry is another node of the wanted interface.
pub open spec fn is_sibling(entry: ClassEntry, name: Seq<char>, interface: Seq<char>) -> bool {
    entry.name@ != name && entry.interface is Some && entry.interface->0@ == interface
}

/// The device path of a node.
pub open spec fn device_path(name: Seq<char>) -> Seq<char> {
    "/dev/"@ + name
}

/// The device paths of the siblings among the first `n` entries, in their order.
pub open spec fn sibling_paths(
    entries: Seq<ClassEntry>,
    name: Seq<char>,
    interface: Seq<char>,
    n: int,
) -> Seq<Seq<char>>
    decreases n,
{
    if n <= 0 {
        Seq::<Seq<char>>::empty()
    } else {
        let before = sibling_paths(entries, name, interface, n - 1);
        if is_sibling(entries[n - 1], name, interface) {
            before.push(device_path(entries[n - 1].name@))
        } else {
            before
        }
    }
}

/// The order of nodes: by number, then by name.
pub open spec fn node_before(a: Seq<char>, b: Seq<char>) -> bool {
    number_of(a) < number_of(b) || (number_of(a) == number_of(b) && precedes(a, b))
}

/// Whether no node comes before one that stands in front of it.
pub open spec fn nodes_sorted(list: Seq<Seq<char>>) -> bool {
    forall|i: int, j: int|
        0 <= i < j < list.len() ==> !node_before(#[trigger] list[j], #[trigger] list[i])
}

fn comes_first(a: &String, b: &String) -> (r: bool)
    ensures
        r == node_before(a@, b@),
{
    let x: u32 = node_number(a.as_str());
    let y: u32 = node_number(b.as_str());
    x < y || (x == y && comes_before(
        chars_of(a.as_str()).as_slice(),
        chars_of(b.as_str()).as_slice(),
    ))
}

proof fn node_order(a: Seq<char>, b: Seq<char>, c: Seq<char>)
    ensures
        !node_before(a, a),
        node_before(a, b) ==> !node_before(b, a),
        !node_before(a, b) && !node_before(b, c) ==> !node_before(a, c),
{
    precedes_irreflexive(a);
    precedes_irreflexive(b);
    precedes_irreflexive(c);
    if precedes(a, b) && precedes(b, a) {
        precedes_transitive(a, b, a);
    }
    precedes_total(a, b);
    precedes_total(b, c);
    precedes_total(a, c);
    if precedes(b, a) && precedes(c, b) {
        precedes_transitive(c, b, a);
    }
    if precedes(a, c) && precedes(c, a) {
        precedes_transitive(a, c, a);
    }
    if precedes(a, c) && precedes(c, b) {
        precedes_transitive(a, c, b);
    }
    if precedes(b, a) && precedes(a, c) {
        precedes_transitive(b, a, c);
    }
}

/// Every other v4l2 node registered against the same physical interface as the node `name`,
/// lowest node number first.
///
/// An entry whose interface cannot be read is skipped, not fatal: virtual
/// devices have no `device` link at all.
pub fn siblings(name: &str, interface: &str, entries: &Vec<ClassEntry>) -> (r: Vec<String>)
    ensures
        nodes_sorted(texts(r@)),
        texts(r@).to_multiset() == sibling_paths(
            entries@,
            name@,
            interface@,
            entries@.len() as int,
        ).to_multiset(),
{
    let own: String = name.to_owned();
    let want: String = interface.to_owned();
    let mut list: Vec<String> = Vec::new();
    let mut k: usize = 0;
    assert(texts(list@) =~= Seq::<Seq<char>>::empty());
    while k < entries.len()
        invariant
            k <= entries@.len(),
            own@ == name@,
            want@ == interface@,
            nodes_sorted(texts(list@)),
            texts(list@).to_multiset() == sibling_paths(
                entries@,
                name@,
                interface@,
                k as int,
            ).to_multiset(),
        decreases entries@.len() - k,
    {
        let on_interface: bool = match &entries[k].interface {
            Some(link) => *link == want,
            None => false,
        };
        if entries[k].name != own && on_interface {
            let mut path: String = "/dev/".to_owned();
            path.append(entries[k].name.as_str());
            let ghost fresh = path@;
            insert_sorted(&mut list, path);
            proof {
                sibling_paths(entries@, name@, interface@, k as int).to_multiset_ensures();
            }
            assert(sibling_paths(entries@, name@, interface@, k as int + 1).to_multiset()
                == sibling_paths(entries@, name@, interface@, k as int).to_multiset().insert(
                fresh,
            ));
        }
        k = k + 1;
    }
    list
}

/// Inserts a node where it belongs.
fn insert_sorted(list: &mut Vec<String>, path: String)
    requires
        nodes_sorted(texts(old(list)@)),
    ensures
        nodes_sorted(texts(final(list)@)),
        texts(final(list)@).to_multiset() == texts(old(list)@).to_multiset().insert(path@),
{
    let ghost views = texts(list@);
    let ghost fresh = path@;
    let mut at: usize = 0;
    while at < list.len() && !comes_first(&path, &list[at])
        invariant
            at <= list@.len(),
            views == texts(list@),
            fresh == path@,
            forall|i: int| 0 <= i < at ==> !node_before(fresh, #[trigger] views[i]),
        decreases list@.len() - at,
    {
        assert(!node_before(fresh, views[at as int]));
        at = at + 1;
    }
    assert(at < views.len() ==> node_before(fresh, views[at as int]));
    list.insert(at, path);
    let ghost after = texts(list@);
    assert(after =~= views.insert(at as int, fresh));
    proof {
        vstd::seq_lib::to_multiset_insert(views, at as int, fresh);
        assert forall|i: int, j: int| 0 <= i < j < after.len() implies !node_before(
            #[trigger] after[j],
            #[trigger] after[i],
        ) by {
            let a = if i < at { i } else { i - 1 };
            let b = if j < at { j } else { j - 1 };
            if i == at {
                assert(after[j] == views[b]);
                let first = views[at as int];
                node_order(fresh, first, fresh);
                if b > at {
                    assert(!node_before(views[b], first));
                    node_order(views[b], first, fresh);
                }
            } else if j == at {
                assert(after[i] == views[a]);
            } else {
                assert(after[i] == views[a]);
                assert(after[j] == views[b]);
            }
        }
    }
}

// ---------------------------------------------------------------------------------------------
// Opening
// ---------------------------------------------------------------------------------------------

/// Which metadata node to read.
#[derive(Clone, Copy, Debug, PartialEq, Eq)]
pub enum MetadataSelection<'a> {
    /// The one that is found, if it can be read.
    Discover,
    /// Exactly this one.
    Exact(&'a str),
    /// None.
    Absent,
}

/// Opens the selected metadata node.
///
/// A node that was discovered is best-effort: a failure to open it is the same as none. One that
/// was named must open, and the kill switch makes it an error. Where none is wanted, none is
/// looked for.
pub fn open_selected_with<T>(
    ir_device: &str,
    selection: MetadataSelection<'_>,
    disabled: bool,
    discover: impl FnOnce(&str) -> Option<String>,
    open: impl FnOnce(&str, &str) -> Result<T, String>,
) -> (r: Result<Option<T>, String>)
    requires
        selection is Discover ==> call_requires(discover, (ir_device,)),
        forall|node: &str| call_requires(open, (ir_device, node)),
    ensures
        match selection {
            MetadataSelection::Absent => r == Ok::<Option<T>, String>(None),
            MetadataSelection::Exact(node) => if disabled {
                r is Err && r->Err_0@ == "required illumination metadata is disabled"@
            } else {
                match r {
                    Ok(opened) => opened is Some && call_ensures(
                        open,
                        (ir_device, node),
                        Ok(opened->0),
                    ),
                    Err(why) => call_ensures(open, (ir_device, node), Err(why)),
                }
            },
            MetadataSelection::Discover => r is Ok && exists|found: Option<String>|
                {
                    &&& #[trigger] call_ensures(discover, (ir_device,), found)
                    &&& found is None ==> r->Ok_0 is None
                    &&& found is Some ==> exists|asked: &str, result: Result<T, String>|
                        {
                            &&& asked@ == found->0@
                            &&& #[trigger] call_ensures(open, (ir_device, asked), result)
                            &&& match result {
                                Ok(opened) => r->Ok_0 == Some(opened),
                                Err(_) => r->Ok_0 is None,
                            }
                        }
                },
        },
{
    match selection {
        MetadataSelection::Discover => {
            let found: Option<String> = discover(ir_device);
            match found {
                Some(node) => {
                    let asked: &str = node.as_str();
                    let result: Result<T, String> = open(ir_device, asked);
                    let ghost answer = result;
                    assert(call_ensures(open, (ir_device, asked), answer));
                    match result {
                        Ok(opened) => Ok(Some(opened)),
                        Err(_) => Ok(None),
                    }
                },
                None => Ok(None),
            }
        },
        MetadataSelection::Absent => Ok(None),
        MetadataSelection::Exact(node) => {
            if disabled {
                return Err("required illumination metadata is disabled".to_owned());
            }
            match open(ir_device, node) {
                Ok(opened) => Ok(Some(opened)),
                Err(why) => Err(why),
            }
        },
    }
}

// ---------------------------------------------------------------------------------------------
// Laws
// ---------------------------------------------------------------------------------------------

proof fn digits_at_the_end(head: Seq<char>, digits: Seq<char>)
    requires
        head.len() == 0 || !is_digit(head.last(), 10),
        forall|i: int| 0 <= i < digits.len() ==> is_digit(#[trigger] digits[i], 10),
    ensures
        trailing_digits(head + digits) == digits,
    decreases digits.len(),
{
    if digits.len() == 0 {
        assert(head + digits =~= head);
        assert(trailing_digits(head) =~= digits);
    } else {
        let shorter = digits.drop_last();
        assert forall|i: int| 0 <= i < shorter.len() implies is_digit(#[trigger] shorter[i], 10) by {
            assert(shorter[i] == digits[i]);
        }
        digits_at_the_end(head, shorter);
        assert((head + digits).drop_last() =~= head + shorter);
        assert((head + digits).last() == digits.last());
        assert(is_digit(digits[digits.len() - 1], 10));
        assert(shorter.push(digits.last()) =~= digits);
    }
}

/// A node has the number that the digits at the end of its path write, whatever stands before them.
/// Without digits, or with a number that does not fit, it comes last.
pub proof fn a_node_has_the_number_that_it_ends_with(head: Seq<char>, digits: Seq<char>)
    requires
        head.len() == 0 || !is_digit(head.last(), 10),
        forall|i: int| 0 <= i < digits.len() ==> is_digit(#[trigger] digits[i], 10),
    ensures
        digits.len() == 0 ==> number_of(head + digits) == 0xffff_ffff,
        digits.len() > 0 && number(digits, 10) is Some ==> number_of(head + digits) == (if number(
            digits,
            10,
        )->0 <= 0xffff_ffff {
            number(digits, 10)->0
        } else {
            0xffff_ffff
        }),
{
    digits_at_the_end(head, digits);
}

/// Where the candidates are sorted, the one that is chosen has the lowest number above the image
/// node's; and one is chosen wherever a candidate is above it.
pub proof fn the_nearest_node_above_is_next(
    image: Seq<char>,
    candidates: Seq<Seq<char>>,
    k: int,
)
    requires
        nodes_sorted(candidates),
        0 <= k < candidates.len(),
        number_of(candidates[k]) > number_of(image),
    ensures
        exists|i: int| #[trigger] is_next_node(image, candidates, i),
        forall|i: int| #[trigger] is_next_node(image, candidates, i) ==> number_of(image) < number_of(
            candidates[i],
        ) <= number_of(candidates[k]),
    decreases k,
{
    if exists|j: int| 0 <= j < k && number_of(#[trigger] candidates[j]) > number_of(image) {
        let j = choose|j: int| 0 <= j < k && number_of(#[trigger] candidates[j]) > number_of(image);
        the_nearest_node_above_is_next(image, candidates, j);
        assert(!node_before(candidates[k], candidates[j]));
    } else {
        assert(is_next_node(image, candidates, k));
    }
    assert forall|i: int| #[trigger] is_next_node(image, candidates, i) implies number_of(
        candidates[i],
    ) <= number_of(candidates[k]) by {
        if i < k {
            assert(!node_before(candidates[k], candidates[i]));
        } else if k < i {
            assert(number_of(candidates[k]) <= number_of(image));
        }
    }
}

/// A node is a sibling exactly where it has another name and its interface can be read and is the
/// wanted one; the siblings are listed by their paths under the device directory.
pub proof fn the_siblings_share_the_interface(
    entries: Seq<ClassEntry>,
    name: Seq<char>,
    interface: Seq<char>,
    path: Seq<char>,
    n: int,
)
    requires
        0 <= n <= entries.len(),
    ensures
        sibling_paths(entries, name, interface, n).contains(path) <==> exists|i: int|
            {
                &&& 0 <= i < n
                &&& (#[trigger] entries[i]).name@ != name
                &&& entries[i].interface is Some
                &&& entries[i].interface->0@ == interface
                &&& path == "/dev/"@ + entries[i].name@
            },
    decreases n,
{
    let all = sibling_paths(entries, name, interface, n);
    if n > 0 {
        the_siblings_share_the_interface(entries, name, interface, path, n - 1);
        let before = sibling_paths(entries, name, interface, n - 1);
        let last = entries[n - 1];
        if before.contains(path) {
            let k = choose|k: int| 0 <= k < before.len() && before[k] == path;
            assert(all[k] == path);
        }
        if is_sibling(last, name, interface) {
            assert(all[before.len() as int] == "/dev/"@ + last.name@);
        }
        if all.contains(path) && !before.contains(path) {
            let k = choose|k: int| 0 <= k < all.len() && all[k] == path;
            if k < before.len() {
                assert(before[k] == path);
            }
            assert(path == "/dev/"@ + entries[n - 1].name@);
        }
    } else {
        assert(all =~= Seq::<Seq<char>>::empty());
    }
}

/// Nodes are ordered by their numbers first, and by their paths among equal numbers.
pub proof fn nodes_are_ordered_by_number(a: Seq<char>, b: Seq<char>)
    ensures
        number_of(a) < number_of(b) ==> node_before(a, b) && !node_before(b, a),
        number_of(a) == number_of(b) ==> (node_before(a, b) <==> precedes(a, b)),
{
}

} // verus!
