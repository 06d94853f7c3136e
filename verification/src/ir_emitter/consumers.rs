//! Other holders of a camera's node, from one pass over a process tree.
//!
//! Only a consumer that the scan positively saw stands the emitter down. A blind spot is a
//! separate fact, never an empty list.
use vstd::prelude::*;
use crate::ir_emitter::control::unsigned;
use crate::text::{
    chars_of, copy_range, decimal, push_decimal, read_number, text_of, texts, trim, trimmed,
};

verus! {

/// What came of following a link.
#[derive(Clone, Debug, PartialEq, Eq)]
pub enum Link {
    To(String),
    Unreadable { denied: bool },
}

/// What came of listing a process's open files.
#[derive(Clone, Debug, PartialEq, Eq)]
pub enum Links {
    Listed(Vec<Link>),
    Unreadable { denied: bool },
}

/// An entry of a process tree.
#[derive(Clone, Debug, PartialEq, Eq)]
pub struct ProcessEntry {
    /// The entry's name: a process id, where the entry is a process.
    pub name: String,
    pub links: Links,
    /// The command's name, where it can be read.
    pub comm: Option<String>,
}

/// What came of listing a process tree.
#[derive(Clone, Debug, PartialEq, Eq)]
pub enum ProcessTree {
    Listed(Vec<ProcessEntry>),
    Unreadable { denied: bool },
}

/// What one pass over a process tree could establish about other holders of a node.
#[derive(Clone, Debug, PartialEq, Eq)]
pub struct ConsumerScan {
    /// Process ids, with command names, of other processes seen holding the node.
    pub consumers: Vec<(u32, String)>,
    /// At least one process refused inspection.
    pub permission_denied: bool,
}

/// What a scan established, as values.
pub struct ScanView {
    pub consumers: Seq<(u32, Seq<char>)>,
    pub permission_denied: bool,
}

impl View for ConsumerScan {
    type V = ScanView;

    open spec fn view(&self) -> ScanView {
        ScanView {
            consumers: Seq::new(
                self.consumers@.len(),
                |i: int| (self.consumers@[i].0, self.consumers@[i].1@),
            ),
            permission_denied: self.permission_denied,
        }
    }
}

/// The process id that an entry's name writes.
pub open spec fn process_id(name: Seq<char>) -> Option<u32> {
    match unsigned(name, 10) {
        Some(n) => if 0 <= n <= u32::MAX {
            Some(n as u32)
        } else {
            None
        },
        None => None,
    }
}

/// Whether a link leads to the node.
pub open spec fn leads_to(link: Link, dev: Seq<char>) -> bool {
    link matches Link::To(target) && target@ == dev
}

/// Whether one of the links leads to the node.
pub open spec fn holds(links: Seq<Link>, dev: Seq<char>) -> bool {
    exists|i: int| 0 <= i < links.len() && leads_to(#[trigger] links[i], dev)
}

/// Whether a link that is looked at is refused: links are followed until one leads to the node.
pub open spec fn meets_refusal(links: Seq<Link>, dev: Seq<char>) -> bool
    decreases links.len(),
{
    if links.len() == 0 || leads_to(links[0], dev) {
        false
    } else {
        links[0] == (Link::Unreadable { denied: true }) || meets_refusal(links.skip(1), dev)
    }
}

/// The command name that is shown for a process.
pub open spec fn shown_command(comm: Option<String>) -> Seq<char> {
    match comm {
        Some(name) => trimmed(name@),
        None => "?"@,
    }
}

/// Whether an entry is another process.
pub open spec fn is_other_process(entry: ProcessEntry, self_pid: u32) -> bool {
    process_id(entry.name@) is Some && process_id(entry.name@)->0 != self_pid
}

/// The scan of the entries, the first of them first.
pub open spec fn scanned(entries: Seq<ProcessEntry>, dev: Seq<char>, self_pid: u32) -> ScanView
    decreases entries.len(),
{
    if entries.len() == 0 {
        ScanView { consumers: seq![], permission_denied: false }
    } else {
        let before = scanned(entries.drop_last(), dev, self_pid);
        let entry = entries.last();
        if !is_other_process(entry, self_pid) {
            before
        } else {
            match entry.links {
                Links::Unreadable { denied } => ScanView {
                    permission_denied: before.permission_denied || denied,
                    ..before
                },
                Links::Listed(links) => ScanView {
                    consumers: if holds(links@, dev) {
                        before.consumers.push(
                            (process_id(entry.name@)->0, shown_command(entry.comm)),
                        )
                    } else {
                        before.consumers
                    },
                    permission_denied: before.permission_denied || meets_refusal(links@, dev),
                },
            }
        }
    }
}

/// The scan of a process tree for other holders of a node.
pub open spec fn scan_of(tree: ProcessTree, dev: Seq<char>, self_pid: u32) -> ScanView {
    if dev.len() == 0 {
        ScanView { consumers: seq![], permission_denied: false }
    } else {
        match tree {
            ProcessTree::Unreadable { denied } => ScanView {
                consumers: seq![],
                permission_denied: denied,
            },
            ProcessTree::Listed(entries) => scanned(entries@, dev, self_pid),
        }
    }
}

impl ConsumerScan {
    /// Only a consumer that the scan actually saw stands the emitter down. A blind spot must not:
    /// where most processes refuse inspection the emitter would be dark for good.
    #[must_use]
    pub fn stands_down(&self) -> (r: bool)
        ensures
            r == (self@.consumers.len() > 0),
    {
        self.consumers.len() > 0
    }

    /// A scan that saw nothing.
    #[must_use]
    pub fn nothing() -> (r: Self)
        ensures
            r@ == (ScanView { consumers: seq![], permission_denied: false }),
    {
        let consumers: Vec<(u32, String)> = Vec::new();
        let r: ConsumerScan = ConsumerScan { consumers, permission_denied: false };
        assert(r@.consumers =~= seq![]);
        r
    }
}

fn read_process_id(name: &str) -> (r: Option<u32>)
    ensures
        r == process_id(name@),
{
    let chars: Vec<char> = chars_of(name);
    let from: usize = if chars.len() > 0 && chars[0] == '+' {
        1
    } else {
        0
    };
    let digits: Vec<char> = copy_range(chars.as_slice(), from, chars.len());
    assert(digits@ =~= (if from == 1 {
        chars@.skip(1)
    } else {
        chars@
    }));
    if digits.len() == 0 {
        return None;
    }
    proof {
        crate::text::number_of_prefix(digits@, 10, 0);
        crate::text::number_of_prefix(digits@, 10, digits@.len() as int);
        assert(digits@.take(digits@.len() as int) =~= digits@);
    }
    read_number(digits.as_slice(), 10, u32::MAX)
}

/// Follows links until one leads to the node: whether one does, and whether one was refused.
fn follow(links: &Vec<Link>, dev: &String) -> (r: (bool, bool))
    ensures
        r.0 == holds(links@, dev@),
        r.1 == meets_refusal(links@, dev@),
{
    let mut refused: bool = false;
    let mut i: usize = 0;
    assert(links@.skip(0) =~= links@);
    while i < links.len()
        invariant
            i <= links@.len(),
            forall|k: int| 0 <= k < i ==> !leads_to(#[trigger] links@[k], dev@),
            meets_refusal(links@, dev@) == (refused || meets_refusal(
                links@.skip(i as int),
                dev@,
            )),
        decreases links@.len() - i,
    {
        assert(links@.skip(i as int).skip(1) =~= links@.skip(i as int + 1));
        assert(links@.skip(i as int)[0] == links@[i as int]);
        match &links[i] {
            Link::To(target) => {
                if *target == *dev {
                    assert(leads_to(links@[i as int], dev@));
                    return (true, refused);
                }
            },
            Link::Unreadable { denied } => {
                if *denied {
                    refused = true;
                }
            },
        }
        i = i + 1;
    }
    (false, refused)
}

fn command_of(comm: &Option<String>) -> (r: String)
    ensures
        r@ == shown_command(*comm),
{
    match comm {
        Some(name) => text_of(trim(chars_of(name.as_str()).as_slice()).as_slice()),
        None => "?".to_owned(),
    }
}

/// Scans a process tree for other processes that hold the node open.
///
/// Only a permission denial marks the scan incomplete: a process that vanished, or one without
/// open files, is the ordinary churn of a process tree.
#[must_use]
pub fn foreign_consumers(tree: &ProcessTree, dev: &str, self_pid: u32) -> (r: ConsumerScan)
    ensures
        r@ == scan_of(*tree, dev@, self_pid),
{
    let dev: String = dev.to_owned();
    let mut scan: ConsumerScan = ConsumerScan::nothing();
    proof {
        reveal_strlit("");
    }
    if dev == "".to_owned() {
        return scan;
    }
    assert(dev@.len() == 0 ==> dev@ =~= ""@);
    let entries: &Vec<ProcessEntry> = match tree {
        ProcessTree::Unreadable { denied } => {
            scan.permission_denied = *denied;
            assert(scan@.consumers =~= seq![]);
            return scan;
        },
        ProcessTree::Listed(entries) => entries,
    };
    let mut i: usize = 0;
    assert(entries@.take(0) =~= Seq::<ProcessEntry>::empty());
    while i < entries.len()
        invariant
            i <= entries@.len(),
            scan@ == scanned(entries@.take(i as int), dev@, self_pid),
        decreases entries@.len() - i,
    {
        let ghost taken = entries@.take(i as int + 1);
        assert(taken.drop_last() =~= entries@.take(i as int));
        let ghost before = scan@;
        let entry: &ProcessEntry = &entries[i];
        if let Some(pid) = read_process_id(entry.name.as_str()) {
            if pid != self_pid {
                match &entry.links {
                    Links::Unreadable { denied } => {
                        if *denied {
                            scan.permission_denied = true;
                        }
                        assert(scan@.consumers =~= before.consumers);
                    },
                    Links::Listed(links) => {
                        let (held, refused): (bool, bool) = follow(links, &dev);
                        if refused {
                            scan.permission_denied = true;
                        }
                        if held {
                            let command: String = command_of(&entry.comm);
                            scan.consumers.push((pid, command));
                            assert(scan@.consumers =~= before.consumers.push((pid, command@)));
                        } else {
                            assert(scan@.consumers =~= before.consumers);
                        }
                    },
                }
            }
        }
        i = i + 1;
    }
    assert(entries@.take(i as int) =~= entries@);
    scan
}

// ---------------------------------------------------------------------------------------------
// The report
// ---------------------------------------------------------------------------------------------

/// The holders that a report names: the first three, as `command(pid)`.
pub open spec fn named_holders(consumers: Seq<(u32, Seq<char>)>) -> Seq<Seq<char>> {
    Seq::new(
        if consumers.len() < 3 {
            consumers.len()
        } else {
            3
        },
        |i: int| consumers[i].1 + "("@ + decimal(consumers[i].0 as nat) + ")"@,
    )
}

impl ConsumerScan {
    /// The holders that a report names: the first three, as `command(pid)`.
    #[must_use]
    pub fn holders(&self) -> (r: Vec<String>)
        ensures
            texts(r@) == named_holders(self@.consumers),
    {
        let mut names: Vec<String> = Vec::new();
        let mut i: usize = 0;
        while i < self.consumers.len() && i < 3
            invariant
                i <= 3,
                i <= self.consumers@.len(),
                names@.len() == i,
                forall|k: int|
                    0 <= k < i ==> (#[trigger] names@[k])@ == self@.consumers[k].1 + "("@ + decimal(
                        self@.consumers[k].0 as nat,
                    ) + ")"@,
            decreases 3 - i,
        {
            let mut s: String = self.consumers[i].1.clone();
            s.append("(");
            push_decimal(&mut s, self.consumers[i].0 as u64);
            s.append(")");
            names.push(s);
            i = i + 1;
        }
        assert(texts(names@) =~= named_holders(self@.consumers));
        names
    }
}

// ---------------------------------------------------------------------------------------------
// Laws
// ---------------------------------------------------------------------------------------------

/// Every consumer that a scan reports is another process whose open files lead to the node.
pub proof fn reported_consumers_hold_the_node(
    entries: Seq<ProcessEntry>,
    dev: Seq<char>,
    self_pid: u32,
    i: int,
)
    requires
        0 <= i < scanned(entries, dev, self_pid).consumers.len(),
    ensures
        exists|k: int|
            0 <= k < entries.len() && {
                let entry = #[trigger] entries[k];
                &&& process_id(entry.name@) == Some(
                    scanned(entries, dev, self_pid).consumers[i].0,
                )
                &&& scanned(entries, dev, self_pid).consumers[i].0 != self_pid
                &&& entry.links matches Links::Listed(links) && holds(links@, dev)
            },
    decreases entries.len(),
{
    let shorter = entries.drop_last();
    let before = scanned(shorter, dev, self_pid);
    if i < before.consumers.len() {
        reported_consumers_hold_the_node(shorter, dev, self_pid, i);
        let k = choose|k: int|
            0 <= k < shorter.len() && {
                let entry = #[trigger] shorter[k];
                &&& process_id(entry.name@) == Some(before.consumers[i].0)
                &&& before.consumers[i].0 != self_pid
                &&& entry.links matches Links::Listed(links) && holds(links@, dev)
            };
        assert(entries[k] == shorter[k]);
    } else {
        assert(entries[entries.len() - 1] == entries.last());
    }
}

/// A process that holds the node, and lets its open files be listed, is reported.
pub proof fn holders_are_reported(
    entries: Seq<ProcessEntry>,
    dev: Seq<char>,
    self_pid: u32,
    k: int,
)
    requires
        0 <= k < entries.len(),
        is_other_process(entries[k], self_pid),
        entries[k].links matches Links::Listed(links) && holds(links@, dev),
    ensures
        exists|i: int|
            0 <= i < scanned(entries, dev, self_pid).consumers.len() && (
            #[trigger] scanned(entries, dev, self_pid).consumers[i]).0 == process_id(
                entries[k].name@,
            )->0,
    decreases entries.len(),
{
    let shorter = entries.drop_last();
    let before = scanned(shorter, dev, self_pid);
    let after = scanned(entries, dev, self_pid);
    if k == entries.len() - 1 {
        assert(after.consumers[before.consumers.len() as int].0 == process_id(
            entries[k].name@,
        )->0);
    } else {
        holders_are_reported(shorter, dev, self_pid, k);
        let i = choose|i: int|
            0 <= i < before.consumers.len() && (#[trigger] before.consumers[i]).0 == process_id(
                shorter[k].name@,
            )->0;
        assert(after.consumers[i] == before.consumers[i]);
    }
}

/// A process that refuses to have its open files listed leaves the scan incomplete; one that vanished
/// does not. Neither is a consumer.
pub proof fn a_refusal_leaves_the_scan_incomplete(
    before: Seq<ProcessEntry>,
    entry: ProcessEntry,
    dev: Seq<char>,
    self_pid: u32,
    denied: bool,
)
    requires
        process_id(entry.name@) is Some,
        process_id(entry.name@)->0 != self_pid,
        entry.links == (Links::Unreadable { denied }),
    ensures
        scanned(before.push(entry), dev, self_pid) == (ScanView {
            consumers: scanned(before, dev, self_pid).consumers,
            permission_denied: scanned(before, dev, self_pid).permission_denied || denied,
        }),
{
    assert(before.push(entry).drop_last() =~= before);
}

/// The own process, and what is no process, makes no difference to a scan.
pub proof fn the_own_process_is_not_looked_at(
    before: Seq<ProcessEntry>,
    entry: ProcessEntry,
    dev: Seq<char>,
    self_pid: u32,
)
    requires
        process_id(entry.name@) is None || process_id(entry.name@) == Some(self_pid),
    ensures
        scanned(before.push(entry), dev, self_pid) == scanned(before, dev, self_pid),
{
    assert(before.push(entry).drop_last() =~= before);
}

/// Another process whose open files are listed is reported, behind those before it, with its id and
/// its command's name without the white space around it, or a question mark; exactly where one of its
/// links leads to the node.
pub proof fn a_holder_is_reported_under_its_name(
    before: Seq<ProcessEntry>,
    entry: ProcessEntry,
    links: Vec<Link>,
    dev: Seq<char>,
    self_pid: u32,
)
    requires
        process_id(entry.name@) is Some,
        process_id(entry.name@)->0 != self_pid,
        entry.links == Links::Listed(links),
    ensures
        scanned(before.push(entry), dev, self_pid).consumers == (if exists|i: int|
            0 <= i < links@.len() && (#[trigger] links@[i]) is To && links@[i]->To_0@ == dev {
            scanned(before, dev, self_pid).consumers.push(
                (
                    process_id(entry.name@)->0,
                    match entry.comm {
                        Some(name) => trimmed(name@),
                        None => "?"@,
                    },
                ),
            )
        } else {
            scanned(before, dev, self_pid).consumers
        }),
{
    assert(before.push(entry).drop_last() =~= before);
    let there = exists|i: int|
        0 <= i < links@.len() && (#[trigger] links@[i]) is To && links@[i]->To_0@ == dev;
    if there {
        let i = choose|i: int|
            0 <= i < links@.len() && (#[trigger] links@[i]) is To && links@[i]->To_0@ == dev;
        assert(leads_to(links@[i], dev));
    } else if holds(links@, dev) {
        let i = choose|i: int| 0 <= i < links@.len() && leads_to(#[trigger] links@[i], dev);
        assert(links@[i] is To);
    }
}

/// A refused link counts exactly where no link before it leads to the node.
pub proof fn a_refused_link_counts_until_the_node_is_found(links: Seq<Link>, dev: Seq<char>)
    ensures
        meets_refusal(links, dev) <==> exists|i: int|
            {
                &&& 0 <= i < links.len()
                &&& #[trigger] links[i] == (Link::Unreadable { denied: true })
                &&& forall|k: int| 0 <= k < i ==> !leads_to(#[trigger] links[k], dev)
            },
    decreases links.len(),
{
    let found = |s: Seq<Link>, i: int|
        {
            &&& 0 <= i < s.len()
            &&& s[i] == (Link::Unreadable { denied: true })
            &&& forall|k: int| 0 <= k < i ==> !leads_to(#[trigger] s[k], dev)
        };
    if links.len() > 0 {
        let rest = links.skip(1);
        a_refused_link_counts_until_the_node_is_found(rest, dev);
        if meets_refusal(links, dev) {
            if links[0] == (Link::Unreadable { denied: true }) {
                assert(found(links, 0));
            } else {
                let i = choose|i: int|
                    {
                        &&& 0 <= i < rest.len()
                        &&& #[trigger] rest[i] == (Link::Unreadable { denied: true })
                        &&& forall|k: int| 0 <= k < i ==> !leads_to(#[trigger] rest[k], dev)
                    };
                assert(links[i + 1] == rest[i]);
                assert forall|k: int| 0 <= k < i + 1 implies !leads_to(#[trigger] links[k], dev) by {
                    if k > 0 {
                        assert(links[k] == rest[k - 1]);
                    }
                }
            }
        }
        if exists|i: int|
            {
                &&& 0 <= i < links.len()
                &&& #[trigger] links[i] == (Link::Unreadable { denied: true })
                &&& forall|k: int| 0 <= k < i ==> !leads_to(#[trigger] links[k], dev)
            } {
            let i = choose|i: int|
                {
                    &&& 0 <= i < links.len()
                    &&& #[trigger] links[i] == (Link::Unreadable { denied: true })
                    &&& forall|k: int| 0 <= k < i ==> !leads_to(#[trigger] links[k], dev)
                };
            if i > 0 {
                assert(!leads_to(links[0], dev));
                assert(rest[i - 1] == links[i]);
                assert forall|k: int| 0 <= k < i - 1 implies !leads_to(#[trigger] rest[k], dev) by {
                    assert(rest[k] == links[k + 1]);
                }
            }
        }
    }
}

/// A tree that cannot be listed shows nobody, and is incomplete where that was refused; a node
/// without a name is held by nobody.
pub proof fn an_unreadable_tree_shows_nobody(dev: Seq<char>, tree: ProcessTree, self_pid: u32)
    ensures
        scan_of(tree, dev, self_pid) == (if dev.len() == 0 {
            ScanView { consumers: seq![], permission_denied: false }
        } else {
            match tree {
                ProcessTree::Unreadable { denied } => ScanView {
                    consumers: seq![],
                    permission_denied: denied,
                },
                ProcessTree::Listed(entries) => scanned(entries@, dev, self_pid),
            }
        }),
{
}

/// A report names each of the first three holders, and no more.
pub proof fn the_first_three_holders_are_named(consumers: Seq<(u32, Seq<char>)>, i: int)
    requires
        0 <= i < 3,
        i < consumers.len(),
    ensures
        named_holders(consumers).len() <= 3,
        named_holders(consumers).len() == 3 || named_holders(consumers).len() == consumers.len(),
        named_holders(consumers)[i] == consumers[i].1 + "("@ + decimal(consumers[i].0 as nat)
            + ")"@,
{
}

} // verus!
