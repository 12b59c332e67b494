//! Small tools around the bridge: collecting values under keys, applying a
//! fallible function to a list, merging search paths, reading the outcome of
//! a command, and the state of a progress display.
use vstd::prelude::*;
use std::collections::hash_map::Entry;
use std::collections::HashMap;
use std::hash::{BuildHasher, Hash};
use vstd::std_specs::hash::{builds_valid_hashers, obeys_key_model};
use vstd::utf8::{decode_utf8, encode_utf8, valid_utf8};
use crate::text::{decimal, decimal_string};

verus! {

/// The suffix of the names of executable files: `.exe` on Windows, nothing
/// elsewhere.
pub open spec fn exe_suffix_of(windows: bool) -> Seq<char> {
    if windows {
        seq!['.', 'e', 'x', 'e']
    } else {
        Seq::empty()
    }
}

/// The suffix of the names of executable files on a platform that is, or is
/// not, Windows.
pub fn exe_suffix(windows: bool) -> (suffix: &'static str)
    ensures
        suffix@ == exe_suffix_of(windows),
{
    proof {
        reveal_strlit(".exe");
        reveal_strlit("");
    }
    let suffix = if windows {
        ".exe"
    } else {
        ""
    };
    suffix
}

/// The values collected under `key` in `hash`: none where the key is absent.
pub open spec fn values_at<K, T>(hash: Map<K, Vec<T>>, key: K) -> Seq<T> {
    if hash.contains_key(key) {
        hash[key]@
    } else {
        Seq::empty()
    }
}

/// Adds `value` to the values collected under `key`, after those that are
/// there. A key that was absent is entered first, with nothing under it. The
/// other keys keep what they have.
///
/// The map has to behave as a map: its keys are hashed and compared as
/// `vstd` expects of the keys of a hash map, which holds of the integer types
/// with the standard hasher.
pub fn add_to_multihash<K, T, S>(hash: &mut HashMap<K, Vec<T>, S>, key: K, value: T) where
    K: Eq + Hash + Clone,
    S: BuildHasher,

    requires
        obeys_key_model::<K>(),
        builds_valid_hashers::<S>(),
    ensures
        final(hash)@.dom() == old(hash)@.dom().insert(key),
        final(hash)@[key]@ == values_at(old(hash)@, key).push(value),
        forall|other: K|
            other != key && old(hash)@.contains_key(other) ==> final(hash)@[other] == old(
                hash,
            )@[other],
{
    match hash.entry(key) {
        Entry::Occupied(mut entry) => entry.get_mut().push(value),
        Entry::Vacant(entry) => {
            let mut r: Vec<T> = Vec::new();
            r.push(value);
            entry.insert(r);
        },
    }
}

/// Whether `values` holds, item for item, what successful calls of `f` on
/// the items of `items` can return.
pub open spec fn is_mapped<A, B, E, F: Fn(A) -> Result<B, E>>(
    f: F,
    items: Seq<A>,
    values: Seq<B>,
) -> bool {
    &&& values.len() == items.len()
    &&& forall|i: int|
        0 <= i < values.len() ==> call_ensures(f, (items[i],), Ok::<B, E>(#[trigger] values[i]))
}

/// Whether a call of `f` on `item` can succeed.
pub open spec fn can_succeed<A, B, E, F: Fn(A) -> Result<B, E>>(f: F, item: A) -> bool {
    exists|b: B| #[trigger] call_ensures(f, (item,), Ok::<B, E>(b))
}

/// Whether `f` can fail with `e` on the item at index `failed` of `items`
/// after it has succeeded on every item before that one.
pub open spec fn fails_first_at<A, B, E, F: Fn(A) -> Result<B, E>>(
    f: F,
    items: Seq<A>,
    failed: int,
    e: E,
) -> bool {
    &&& 0 <= failed < items.len()
    &&& call_ensures(f, (items[failed],), Err::<B, E>(e))
    &&& forall|i: int| 0 <= i < failed ==> can_succeed(f, #[trigger] items[i])
}

/// Applying a function that can fail to each item of a collection.
pub trait MapIfOk<A>: Sized {
    /// The items of the collection, in order.
    spec fn items(&self) -> Seq<A>;

    /// Calls `f` on each item, in order, and returns what the calls returned.
    /// At the first call that fails, the failure is returned and no further
    /// item is handed to `f`.
    fn map_if_ok<B, E, F: Fn(A) -> Result<B, E>>(self, f: F) -> (mapped: Result<Vec<B>, E>)
        requires
            forall|i: int| 0 <= i < self.items().len() ==> call_requires(f, (self.items()[i],)),
        ensures
            mapped matches Ok(values) ==> is_mapped(f, self.items(), values@),
            mapped matches Err(e) ==> exists|failed: int| #[trigger]
                fails_first_at(f, self.items(), failed, e),
    ;
}

/// Calls `f` on each item of `items`, in order, and returns what the calls
/// returned, or the first failure.
fn map_vec_if_ok<A, B, E, F: Fn(A) -> Result<B, E>>(items: Vec<A>, f: F) -> (mapped: Result<
    Vec<B>,
    E,
>)
    requires
        forall|i: int| 0 <= i < items@.len() ==> call_requires(f, (items@[i],)),
    ensures
        mapped matches Ok(values) ==> is_mapped(f, items@, values@),
        mapped matches Err(e) ==> exists|failed: int| #[trigger]
            fails_first_at(f, items@, failed, e),
{
    let ghost all = items@;
    let mut rest = items;
    let mut pending: Vec<A> = Vec::new();
    while rest.len() > 0
        invariant
            rest@.len() + pending@.len() == all.len(),
            forall|k: int| 0 <= k < rest@.len() ==> rest@[k] == all[k],
            forall|k: int| 0 <= k < pending@.len() ==> pending@[k] == all[all.len() - 1 - k],
        decreases rest@.len(),
    {
        match rest.pop() {
            Some(item) => pending.push(item),
            None => {},
        }
    }
    let mut values: Vec<B> = Vec::new();
    let mut failure: Option<E> = None;
    while pending.len() > 0
        invariant_except_break
            failure is None,
            values@.len() + pending@.len() == all.len(),
        invariant
            forall|k: int| 0 <= k < pending@.len() ==> pending@[k] == all[all.len() - 1 - k],
            forall|i: int| 0 <= i < all.len() ==> call_requires(f, (all[i],)),
            forall|i: int|
                0 <= i < values@.len() ==> call_ensures(
                    f,
                    (all[i],),
                    Ok::<B, E>(#[trigger] values@[i]),
                ),
        ensures
            failure is Some ==> exists|failed: int| #[trigger]
                fails_first_at(f, all, failed, failure->Some_0),
            failure is None ==> values@.len() == all.len(),
        decreases pending@.len(),
    {
        let ghost at = values@.len() as int;
        match pending.pop() {
            Some(item) => {
                match f(item) {
                    Ok(value) => values.push(value),
                    Err(e) => {
                        failure = Some(e);
                        proof {
                            assert forall|i: int| 0 <= i < at implies can_succeed(
                                f,
                                #[trigger] all[i],
                            ) by {
                                assert(call_ensures(f, (all[i],), Ok::<B, E>(values@[i])));
                            }
                            assert(fails_first_at(f, all, at, failure->Some_0));
                        }
                        break ;
                    },
                }
            },
            None => {},
        }
    }
    let ghost outcome = failure;
    let mapped = match failure {
        Some(e) => Err(e),
        None => Ok(values),
    };
    proof {
        if outcome is Some {
            assert(mapped is Err && outcome == Some(mapped->Err_0));
            let failed = choose|failed: int| #[trigger]
                fails_first_at(f, all, failed, outcome->Some_0);
            assert(fails_first_at(f, items@, failed, mapped->Err_0));
        }
    }
    mapped
}

impl<A> MapIfOk<A> for Vec<A> {
    open spec fn items(&self) -> Seq<A> {
        self@
    }

    fn map_if_ok<B, E, F: Fn(A) -> Result<B, E>>(self, f: F) -> (mapped: Result<Vec<B>, E>) {
        proof {
            assert(self.items() == self@);
        }
        map_vec_if_ok(self, f)
    }
}

/// Whether the entry at index `i` of `candidates` is new: it is not among
/// `known`, and no earlier entry of `candidates` is the same.
pub open spec fn is_new_item(known: Seq<Seq<u8>>, candidates: Seq<Seq<u8>>, i: int) -> bool {
    &&& 0 <= i < candidates.len()
    &&& !known.contains(candidates[i])
    &&& forall|j: int| 0 <= j < i ==> candidates[j] != candidates[i]
}

/// The contents of each entry of `items`, in order.
pub open spec fn byte_views(items: Seq<Vec<u8>>) -> Seq<Seq<u8>> {
    items.map_values(|item: Vec<u8>| item@)
}

/// Whether `a` and `b` hold the same bytes.
fn same_bytes(a: &Vec<u8>, b: &Vec<u8>) -> (same: bool)
    ensures
        same == (a@ == b@),
{
    if a.len() != b.len() {
        return false;
    }
    let mut i: usize = 0;
    while i < a.len()
        invariant
            a@.len() == b@.len(),
            i <= a@.len(),
            forall|k: int| 0 <= k < i ==> a@[k] == b@[k],
        decreases a@.len() - i,
    {
        if a[i] != b[i] {
            return false;
        }
        i = i + 1;
    }
    proof {
        assert(a@ =~= b@);
    }
    true
}

/// Whether one of the first `end` entries of `items` holds the bytes of
/// `item`.
fn occurs_before(items: &Vec<Vec<u8>>, end: usize, item: &Vec<u8>) -> (found: bool)
    requires
        end <= items@.len(),
    ensures
        found == exists|j: int| 0 <= j < end && #[trigger] items@[j]@ == item@,
{
    let mut j: usize = 0;
    while j < end
        invariant
            j <= end <= items@.len(),
            forall|k: int| 0 <= k < j ==> #[trigger] items@[k]@ != item@,
        decreases end - j,
    {
        if same_bytes(&items[j], item) {
            return true;
        }
        j = j + 1;
    }
    false
}

/// The entries of a search path that are to be added to the entries `known`:
/// the indices, in rising order, of the entries of `candidates` that are
/// neither among `known` nor repeat an earlier entry of `candidates`. An entry
/// is the text of a path as bytes.
pub fn new_path_items(known: &Vec<Vec<u8>>, candidates: &Vec<Vec<u8>>) -> (fresh: Vec<usize>)
    ensures
        forall|k: int|
            0 <= k < fresh@.len() ==> is_new_item(
                byte_views(known@),
                byte_views(candidates@),
                #[trigger] fresh@[k] as int,
            ),
        forall|k: int, l: int| 0 <= k < l < fresh@.len() ==> fresh@[k] < fresh@[l],
        forall|i: int|
            is_new_item(byte_views(known@), byte_views(candidates@), i) ==> exists|k: int|
                0 <= k < fresh@.len() && #[trigger] fresh@[k] == i,
{
    let ghost old_items = byte_views(known@);
    let ghost new_items = byte_views(candidates@);
    let mut fresh: Vec<usize> = Vec::new();
    let mut i: usize = 0;
    while i < candidates.len()
        invariant
            i <= candidates@.len(),
            old_items == byte_views(known@),
            new_items == byte_views(candidates@),
            forall|k: int|
                0 <= k < fresh@.len() ==> is_new_item(
                    old_items,
                    new_items,
                    #[trigger] fresh@[k] as int,
                ),
            forall|k: int| 0 <= k < fresh@.len() ==> #[trigger] fresh@[k] < i,
            forall|k: int, l: int| 0 <= k < l < fresh@.len() ==> fresh@[k] < fresh@[l],
            forall|c: int|
                0 <= c < i && is_new_item(old_items, new_items, c) ==> exists|k: int|
                    0 <= k < fresh@.len() && #[trigger] fresh@[k] == c,
        decreases candidates@.len() - i,
    {
        let is_known = occurs_before(known, known.len(), &candidates[i]);
        let is_repeated = occurs_before(candidates, i, &candidates[i]);
        proof {
            let item = new_items[i as int];
            assert(item == candidates@[i as int]@);
            if is_known {
                let j = choose|j: int| 0 <= j < known@.len() && #[trigger] known@[j]@ == item;
                assert(old_items[j] == item);
            } else {
                assert forall|j: int| 0 <= j < old_items.len() implies old_items[j] != item by {
                    assert(known@[j]@ != item);
                }
            }
            if is_repeated {
                let j = choose|j: int| 0 <= j < i && #[trigger] candidates@[j]@ == item;
                assert(new_items[j] == item);
            } else {
                assert forall|j: int| 0 <= j < i implies new_items[j] != item by {
                    assert(candidates@[j]@ != item);
                }
            }
            assert(is_new_item(old_items, new_items, i as int) == (!is_known && !is_repeated));
        }
        if !is_known && !is_repeated {
            let ghost before = fresh@;
            fresh.push(i);
            proof {
                assert forall|c: int|
                    0 <= c < i + 1 && is_new_item(old_items, new_items, c) implies exists|k: int|
                    0 <= k < fresh@.len() && #[trigger] fresh@[k] == c by {
                    if c < i {
                        let k = choose|k: int| 0 <= k < before.len() && #[trigger] before[k] == c;
                        assert(fresh@[k] == c);
                    } else {
                        assert(fresh@[fresh@.len() - 1] == c);
                    }
                }
            }
        }
        i = i + 1;
    }
    fresh
}

/// Why the output of a command cannot be had.
#[derive(Debug, Clone, Copy, PartialEq, Eq, Structural, Hash)]
pub enum CommandError {
    /// The command ran and reported failure.
    Failed,
    /// The command succeeded, and what it wrote is no valid UTF-8.
    InvalidUnicode,
}

/// `String::from_utf8` of the standard library: the text that `bytes`
/// encode in UTF-8, or nothing where they are no valid UTF-8.
#[verifier::external_body]
fn string_from_utf8(bytes: Vec<u8>) -> (text: Option<String>)
    ensures
        match text {
            Some(text) => valid_utf8(bytes@) && text@ == decode_utf8(bytes@),
            None => !valid_utf8(bytes@),
        },
{
    String::from_utf8(bytes).ok()
}

/// What a command is taken to have said, from whether it reported success
/// and from what it wrote to its standard output: the text of the output
/// where it succeeded and wrote valid UTF-8.
pub fn command_output(success: bool, stdout: Vec<u8>) -> (output: Result<String, CommandError>)
    ensures
        match output {
            Ok(text) => success && valid_utf8(stdout@) && text@ == decode_utf8(stdout@),
            Err(CommandError::Failed) => !success,
            Err(CommandError::InvalidUnicode) => success && !valid_utf8(stdout@),
        },
{
    if !success {
        return Err(CommandError::Failed);
    }
    match string_from_utf8(stdout) {
        Some(text) => Ok(text),
        None => Err(CommandError::InvalidUnicode),
    }
}

/// The line that shows how far a task has come: the message, a colon, the
/// number of steps done, a slash and the number of steps in all.
pub open spec fn progress_line(message: Seq<char>, pos: u64, count: u64) -> Seq<char> {
    message + seq![':', ' '] + decimal(pos as nat) + seq![' ', '/', ' '] + decimal(count as nat)
}

/// A text of `n` spaces.
pub open spec fn spaces(n: nat) -> Seq<char> {
    Seq::new(n, |i: int| ' ')
}

/// What is written to the terminal to replace a line of `last_line_len`
/// bytes by `line`: a carriage return, spaces over the old line, a carriage
/// return, the new line and a carriage return.
pub open spec fn redrawn(last_line_len: nat, line: Seq<char>) -> Seq<char> {
    seq!['\r'] + spaces(last_line_len) + seq!['\r'] + line + seq!['\r']
}

/// The state of a progress display: how many steps of how many are done, and
/// how long the line is that stands on the terminal. One owner holds it and
/// counts; what is to be written comes back as text.
#[derive(Debug)]
pub struct ProgressBar {
    message: String,
    count: u64,
    pos: u64,
    last_line_len: usize,
}

/// The mathematical value of a [`ProgressBar`].
pub struct ProgressBarView {
    pub message: Seq<char>,
    pub count: u64,
    pub pos: u64,
    pub last_line_len: usize,
}

impl View for ProgressBar {
    type V = ProgressBarView;

    closed spec fn view(&self) -> ProgressBarView {
        ProgressBarView {
            message: self.message@,
            count: self.count,
            pos: self.pos,
            last_line_len: self.last_line_len,
        }
    }
}

impl ProgressBar {
    /// A display for a task of `count` steps, none of them done, with
    /// nothing on the terminal yet.
    pub fn new(count: u64, message: String) -> (bar: ProgressBar)
        ensures
            bar@ == (ProgressBarView { message: message@, count, pos: 0, last_line_len: 0 }),
    {
        ProgressBar { message, count, pos: 0, last_line_len: 0 }
    }

    /// Counts `n` more steps as done.
    pub fn add(&mut self, n: u64)
        requires
            old(self)@.pos + n <= u64::MAX,
        ensures
            final(self)@ == (ProgressBarView { pos: (old(self)@.pos + n) as u64, ..old(self)@ }),
    {
        self.pos = self.pos + n;
    }

    /// The number of steps done.
    pub fn pos(&self) -> (pos: u64)
        ensures
            pos == self@.pos,
    {
        self.pos
    }

    /// The number of steps in all.
    pub fn count(&self) -> (count: u64)
        ensures
            count == self@.count,
    {
        self.count
    }

    /// The line that shows the state.
    pub fn line(&self) -> (line: String)
        ensures
            line@ == progress_line(self@.message, self@.pos, self@.count),
    {
        proof {
            reveal_strlit(": ");
            reveal_strlit(" / ");
        }
        let mut line = self.message.clone();
        line.append(": ");
        line.append(decimal_string(self.pos).as_str());
        line.append(" / ");
        line.append(decimal_string(self.count).as_str());
        line
    }

    /// What is to be written to the terminal to show the state in place of
    /// the line that stands there. The display remembers the length in bytes
    /// of the new line.
    pub fn print(&mut self) -> (written: String)
        ensures
            written@ == redrawn(
                old(self)@.last_line_len as nat,
                progress_line(old(self)@.message, old(self)@.pos, old(self)@.count),
            ),
            final(self)@ == (ProgressBarView {
                last_line_len: encode_utf8(
                    progress_line(old(self)@.message, old(self)@.pos, old(self)@.count),
                ).len() as usize,
                ..old(self)@
            }),
    {
        proof {
            reveal_strlit("\r");
            reveal_strlit(" ");
        }
        let mut written = String::from_str("\r");
        let mut i: usize = 0;
        while i < self.last_line_len
            invariant
                i <= self.last_line_len,
                " "@ == seq![' '],
                written@ == seq!['\r'] + spaces(i as nat),
            decreases self.last_line_len - i,
        {
            written.append(" ");
            i = i + 1;
        }
        let line = self.line();
        written.append("\r");
        written.append(line.as_str());
        written.append("\r");
        self.last_line_len = line.as_str().len();
        written
    }
}

} // verus!
