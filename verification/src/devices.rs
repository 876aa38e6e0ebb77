//! Device discovery: which directory entries are candidate keyboard device
//! nodes, the known-device set fixed at startup, and the hot-plug pending
//! queue fed by filesystem creation notifications.

use vstd::prelude::*;
use vstd::string::StrSliceExecFns;
use vstd::string::StringExecFns;

verus! {

/// The fixed directory of device nodes.
pub open spec fn spec_root_dir() -> Seq<char> {
    "/dev/input"@
}

/// A decimal digit, as the device-node numbering uses it.
pub open spec fn is_ascii_digit_char(c: char) -> bool {
    '0' <= c && c <= '9'
}

/// The candidate-device naming convention holds at position `i` of `s`:
/// the five characters of `event` followed by at least one decimal digit.
pub open spec fn event_name_match_at(s: Seq<char>, i: int) -> bool {
    &&& 0 <= i
    &&& i + 6 <= s.len()
    &&& s[i] == 'e'
    &&& s[i + 1] == 'v'
    &&& s[i + 2] == 'e'
    &&& s[i + 3] == 'n'
    &&& s[i + 4] == 't'
    &&& is_ascii_digit_char(s[i + 5])
}

/// A name designates a candidate device node: it contains, anywhere,
/// `event` followed by a decimal digit (the unanchored fixed pattern).
pub open spec fn is_event_node_name(s: Seq<char>) -> bool {
    exists|i: int| event_name_match_at(s, i)
}

/// Case-sensitive test of the fixed `event`-then-digits naming convention,
/// unanchored within the name.
pub fn name_matches_event_pattern(name: &str) -> (r: bool)
    ensures
        r == is_event_node_name(name@),
{
    let n: usize = name.unicode_len();
    if n < 6 {
        return false;
    }
    let mut i: usize = 0;
    while i <= n - 6
        invariant
            6 <= n == name@.len(),
            0 <= i <= n - 5,
            forall|j: int| 0 <= j < i ==> !event_name_match_at(name@, j),
        decreases n - i,
    {
        if name.get_char(i) == 'e' && name.get_char(i + 1) == 'v' && name.get_char(i + 2) == 'e'
            && name.get_char(i + 3) == 'n' && name.get_char(i + 4) == 't' {
            let d = name.get_char(i + 5);
            if '0' <= d && d <= '9' {
                assert(event_name_match_at(name@, i as int));
                return true;
            }
        }
        assert(!event_name_match_at(name@, i as int));
        i = i + 1;
    }
    assert(forall|j: int| event_name_match_at(name@, j) ==> 0 <= j < i);
    false
}

/// The full path of a directory entry: root, separator, entry name.
pub open spec fn path_join(root: Seq<char>, name: Seq<char>) -> Seq<char> {
    root + seq!['/'] + name
}

/// Builds the full path of an entry under a root directory.
pub fn join_path(root: &str, name: &str) -> (r: String)
    ensures
        r@ == path_join(root@, name@),
{
    let mut s = root.to_owned();
    s.append("/");
    s.append(name);
    proof {
        reveal_strlit("/");
        assert(s@ =~= path_join(root@, name@));
    }
    s
}

/// The full path of a directory entry, if its name follows the candidate
/// naming convention under the fixed root; nothing otherwise.
pub open spec fn event_path_of(name: Seq<char>) -> Option<Seq<char>> {
    if is_event_node_name(name) {
        Some(path_join(spec_root_dir(), name))
    } else {
        None
    }
}

/// Exactly the entries of a directory listing whose name follows the
/// candidate naming convention, each joined to the fixed root, in
/// listing order.
pub open spec fn spec_event_paths(names: Seq<Seq<char>>) -> Seq<Seq<char>> {
    names.filter_map(|n: Seq<char>| event_path_of(n))
}

/// Failure of the hot-plug interface.
#[derive(Clone, Copy, PartialEq, Eq, Structural, Debug)]
pub enum WatchError {
    /// `watch` was called although watching was not enabled at
    /// construction: a contract violation, reported loudly rather than
    /// answered with a value.
    NotEnabled,
}

/// Membership of a path in a list of paths, by path value.
pub fn contains_path(paths: &Vec<String>, p: &String) -> (r: bool)
    ensures
        r == paths.deep_view().contains(p@),
{
    let n: usize = paths.len();
    let mut i: usize = 0;
    while i < n
        invariant
            n == paths@.len(),
            0 <= i <= n,
            forall|j: int| 0 <= j < i ==> paths.deep_view()[j] != p@,
        decreases n - i,
    {
        if paths[i].eq(p) {
            assert(paths.deep_view()[i as int] == p@);
            return true;
        }
        i = i + 1;
    }
    assert(!paths.deep_view().contains(p@));
    false
}

/// The device registry: the set of candidate device nodes fixed at
/// startup, and the queue of hot-plugged candidates not yet handed out.
///
/// The operating-system side of discovery (reading the device directory,
/// subscribing to creation notifications, blocking on the notification
/// channel) is driven by an unverified shell, which passes directory
/// entry names in and receives device paths back.
pub struct Devices {
    /// Whether hot-plug watching was enabled at construction.
    pub watch: bool,
    /// Whether discovery is restricted to the paths given at startup.
    pub watch_initial_only: bool,
    /// The known-device set, immutable after construction; membership by
    /// path value.
    pub devices: Vec<String>,
    /// The fixed directory of device nodes.
    pub root_dir: String,
    /// Discovered candidates not yet consumed; new entries are put at the
    /// front and `watch` hands out the back, so a batch of notifications
    /// is handed out first-in first-out.
    pub events: Vec<String>,
}

impl Devices {
    /// Every queued candidate respects the allow-list whenever discovery
    /// is restricted to the initial device set.
    pub open spec fn wf(self) -> bool {
        self.watch_initial_only ==> forall|i: int|
            0 <= i < self.events.deep_view().len() ==> self.devices.deep_view().contains(
                #[trigger] self.events.deep_view()[i],
            )
    }

    /// A creation notification for `name` is kept: the name follows the
    /// candidate naming convention, and, when discovery is restricted to
    /// the initial set, its full path is in the known-device set.
    pub open spec fn spec_accepts(self, name: Seq<char>) -> bool {
        &&& is_event_node_name(name)
        &&& (self.watch_initial_only ==> self.devices.deep_view().contains(
            path_join(self.root_dir@, name),
        ))
    }

    /// The pending queue after a batch of creation notifications is
    /// processed in order: each kept name's path is put at the front.
    pub open spec fn spec_enqueue(self, q: Seq<Seq<char>>, names: Seq<Seq<char>>) -> Seq<
        Seq<char>,
    >
        decreases names.len(),
    {
        if names.len() == 0 {
            q
        } else {
            let prev = self.spec_enqueue(q, names.drop_last());
            if self.spec_accepts(names.last()) {
                seq![path_join(self.root_dir@, names.last())] + prev
            } else {
                prev
            }
        }
    }

    /// Builds the registry.
    ///
    /// With an empty explicit list the known-device set is every entry of
    /// the given directory listing whose name follows the candidate
    /// naming convention, and discovery is unrestricted; with a non-empty
    /// list the known-device set is exactly that list and discovery is
    /// restricted to it. Registering for creation notifications is the
    /// shell's task; its failure is fatal there before this runs.
    pub fn new(watch: bool, devices: Vec<String>, listing: &Vec<String>) -> (r: Devices)
        ensures
            r.watch == watch,
            r.root_dir@ == spec_root_dir(),
            r.events@.len() == 0,
            devices@.len() == 0 ==> !r.watch_initial_only && r.devices.deep_view()
                == spec_event_paths(listing.deep_view()),
            devices@.len() > 0 ==> r.watch_initial_only && r.devices == devices,
            r.wf(),
    {
        let root_dir: String = "/dev/input".to_owned();
        if devices.len() == 0 {
            let all = Devices::get_all_input_devices(listing);
            Devices {
                watch,
                watch_initial_only: false,
                devices: all,
                root_dir,
                events: Vec::new(),
            }
        } else {
            Devices { watch, watch_initial_only: true, devices, root_dir, events: Vec::new() }
        }
    }

    /// Enumerates the candidate device nodes in a directory listing:
    /// exactly the entries whose name follows the candidate naming
    /// convention, case-sensitive, joined to the fixed root, whatever
    /// else the directory holds.
    pub fn get_all_input_devices(listing: &Vec<String>) -> (r: Vec<String>)
        ensures
            r.deep_view() == spec_event_paths(listing.deep_view()),
    {
        let root: &str = "/dev/input";
        let n: usize = listing.len();
        let mut result: Vec<String> = Vec::new();
        let mut i: usize = 0;
        while i < n
            invariant
                n == listing@.len(),
                0 <= i <= n,
                root@ == spec_root_dir(),
                result.deep_view() == spec_event_paths(listing.deep_view().take(i as int)),
            decreases n - i,
        {
            let name = &listing[i];
            proof {
                assert(listing.deep_view().take(i + 1).drop_last() =~= listing.deep_view().take(
                    i as int,
                ));
                assert(listing.deep_view().take(i + 1).last() == name@);
            }
            if name_matches_event_pattern(name.as_str()) {
                let p = join_path(root, name.as_str());
                result.push(p);
            }
            proof {
                assert(result.deep_view() =~= spec_event_paths(
                    listing.deep_view().take(i + 1),
                ));
            }
            i = i + 1;
        }
        proof {
            assert(listing.deep_view().take(n as int) =~= listing.deep_view());
        }
        result
    }

    /// One step of the hot-plug interface, fed with the batch of entry
    /// names that the notification channel delivered (possibly none).
    ///
    /// Fails with `WatchError::NotEnabled` exactly when watching was not
    /// enabled at construction. Otherwise every kept name of the batch is
    /// queued in order and the oldest queued candidate, if any, is handed
    /// out; names that do not follow the naming convention, and, under
    /// restricted discovery, paths outside the known-device set, never
    /// surface. The shell loops: it blocks on the notification channel
    /// and calls this again whenever no candidate was pending.
    pub fn watch(&mut self, batch: &Vec<String>) -> (r: Result<Option<String>, WatchError>)
        ensures
            final(self).watch == old(self).watch,
            final(self).watch_initial_only == old(self).watch_initial_only,
            final(self).devices == old(self).devices,
            final(self).root_dir == old(self).root_dir,
            !old(self).watch ==> r == Err::<Option<String>, WatchError>(WatchError::NotEnabled)
                && final(self).events == old(self).events,
            old(self).watch ==> ({
                let q = old(self).spec_enqueue(old(self).events.deep_view(), batch.deep_view());
                &&& q.len() == 0 ==> r == Ok::<Option<String>, WatchError>(None)
                    && final(self).events.deep_view() == q
                &&& q.len() > 0 ==> (r matches Ok(Some(p)) && p@ == q.last())
                    && final(self).events.deep_view() == q.drop_last()
            }),
            old(self).wf() ==> final(self).wf(),
            old(self).wf() && old(self).watch_initial_only ==> (r matches Ok(Some(p))
                ==> old(self).devices.deep_view().contains(p@)),
    {
        if !self.watch {
            return Err(WatchError::NotEnabled);
        }
        let ghost init = *self;
        let n: usize = batch.len();
        let mut k: usize = 0;
        while k < n
            invariant
                n == batch@.len(),
                0 <= k <= n,
                self.watch == init.watch,
                self.watch_initial_only == init.watch_initial_only,
                self.devices == init.devices,
                self.root_dir == init.root_dir,
                self.events.deep_view() == init.spec_enqueue(
                    init.events.deep_view(),
                    batch.deep_view().take(k as int),
                ),
            decreases n - k,
        {
            let name = &batch[k];
            proof {
                assert(batch.deep_view().take(k + 1).drop_last() =~= batch.deep_view().take(
                    k as int,
                ));
                assert(batch.deep_view().take(k + 1).last() == name@);
            }
            let matches_pattern = name_matches_event_pattern(name.as_str());
            if matches_pattern {
                let path = join_path(self.root_dir.as_str(), name.as_str());
                let allowed = if self.watch_initial_only {
                    contains_path(&self.devices, &path)
                } else {
                    true
                };
                if allowed {
                    self.events.insert(0, path);
                    proof {
                        assert(self.events.deep_view() =~= init.spec_enqueue(
                            init.events.deep_view(),
                            batch.deep_view().take(k + 1),
                        ));
                    }
                }
            }
            k = k + 1;
        }
        let ghost qfull = init.spec_enqueue(init.events.deep_view(), batch.deep_view());
        proof {
            assert(batch.deep_view().take(n as int) =~= batch.deep_view());
            assert(self.events.deep_view() == qfull);
            if init.wf() {
                init.lemma_enqueue_wf(init.events.deep_view(), batch.deep_view());
            }
        }
        let ghost pre = *self;
        let popped = self.events.pop();
        proof {
            assert(pre.events.deep_view().len() == pre.events@.len());
            if pre.events@.len() > 0 {
                assert(self.events.deep_view() =~= qfull.drop_last());
                assert(pre.events.deep_view()[pre.events@.len() - 1] == pre.events@[pre.events@.len()
                    - 1]@);
            }
            if init.wf() && init.watch_initial_only {
                assert forall|i: int|
                    0 <= i < self.events.deep_view().len() implies init.devices.deep_view().contains(
                    #[trigger] self.events.deep_view()[i],
                ) by {
                    assert(self.events.deep_view()[i] == qfull[i]);
                }
            }
        }
        match popped {
            Some(p) => Ok(Some(p)),
            None => Ok(None),
        }
    }

    /// Under restricted discovery, every path that `spec_enqueue` leaves
    /// in the queue is in the known-device set, provided every path
    /// already queued was.
    proof fn lemma_enqueue_wf(self, q: Seq<Seq<char>>, names: Seq<Seq<char>>)
        requires
            self.watch_initial_only ==> forall|i: int|
                0 <= i < q.len() ==> self.devices.deep_view().contains(#[trigger] q[i]),
        ensures
            self.watch_initial_only ==> forall|i: int|
                0 <= i < self.spec_enqueue(q, names).len() ==> self.devices.deep_view().contains(
                    #[trigger] self.spec_enqueue(q, names)[i],
                ),
        decreases names.len(),
    {
        if names.len() > 0 {
            self.lemma_enqueue_wf(q, names.drop_last());
            if self.watch_initial_only {
                let prev = self.spec_enqueue(q, names.drop_last());
                let cur = self.spec_enqueue(q, names);
                assert forall|i: int| 0 <= i < cur.len() implies self.devices.deep_view().contains(
                    #[trigger] cur[i],
                ) by {
                    if self.spec_accepts(names.last()) {
                        if i == 0 {
                            assert(cur[0] == path_join(self.root_dir@, names.last()));
                        } else {
                            assert(cur[i] == prev[i - 1]);
                        }
                    } else {
                        assert(cur[i] == prev[i]);
                    }
                }
            }
        }
    }
}

} // verus!
