//! The classifier of the lines that the external process writes.
//!
//! A line is held against an ordered table of patterns. The first pattern
//! that matches decides: its groups are turned into an event, or into none
//! where a group is missing or a count cannot be read. Later patterns are
//! not tried then. A line that no pattern matches is no event.

use vstd::prelude::*;
use vstd::string::StrSliceExecFns;
use crate::download::count_view;
use crate::event::{EventView, JobEvent, Transfer, TransferView};
use crate::pattern::{capture_groups, captures_of, compiles, pattern_of};

verus! {

/// The kinds of line that the classifier knows, in the order in which their
/// patterns are tried.
#[derive(Debug, Clone, Copy, PartialEq, Eq, Structural)]
pub enum LineKind {
    PlaylistDiscovered,
    LoadingPlaylist,
    PlaylistNamed,
    Searching,
    Initialize,
    InProgress,
    NotFound,
    Succeeded,
    PlaylistCompleted,
}

/// The number of line kinds.
pub const LINE_KINDS: usize = 9;

impl LineKind {
    /// The kind at a place in the table.
    pub open spec fn at(place: int) -> LineKind {
        if place <= 0 {
            LineKind::PlaylistDiscovered
        } else if place == 1 {
            LineKind::LoadingPlaylist
        } else if place == 2 {
            LineKind::PlaylistNamed
        } else if place == 3 {
            LineKind::Searching
        } else if place == 4 {
            LineKind::Initialize
        } else if place == 5 {
            LineKind::InProgress
        } else if place == 6 {
            LineKind::NotFound
        } else if place == 7 {
            LineKind::Succeeded
        } else {
            LineKind::PlaylistCompleted
        }
    }

    /// The pattern of the kind.
    pub open spec fn pattern_text(self) -> Seq<char> {
        match self {
            LineKind::PlaylistDiscovered => "Downloading (\\d+) tracks:"@,
            LineKind::LoadingPlaylist => "Loading Spotify playlist"@,
            LineKind::PlaylistNamed => "Playlist: (.+) by (.+)"@,
            LineKind::Searching => "Searching: (.+)"@,
            LineKind::Initialize => "Initialize:\\s+(.+)\\s+\\[(\\d+)s/(\\d+)kbps/([0-9.]+)MB\\]"@,
            LineKind::InProgress => "InProgress:\\s+(.+)\\s+\\[(\\d+)s/(\\d+)kbps/([0-9.]+)MB\\]"@,
            LineKind::NotFound => "Not found: (.+)"@,
            LineKind::Succeeded => "Succeeded:\\s+(.+)\\s+\\[(\\d+)s/(\\d+)kbps/([0-9.]+)MB\\]"@,
            LineKind::PlaylistCompleted => "Completed: (\\d+) succeeded, (\\d+) failed"@,
        }
    }

    /// The kind at a place in the table.
    pub fn nth(place: usize) -> (r: LineKind)
        requires
            place < LINE_KINDS,
        ensures
            r == LineKind::at(place as int),
    {
        if place == 0 {
            LineKind::PlaylistDiscovered
        } else if place == 1 {
            LineKind::LoadingPlaylist
        } else if place == 2 {
            LineKind::PlaylistNamed
        } else if place == 3 {
            LineKind::Searching
        } else if place == 4 {
            LineKind::Initialize
        } else if place == 5 {
            LineKind::InProgress
        } else if place == 6 {
            LineKind::NotFound
        } else if place == 7 {
            LineKind::Succeeded
        } else {
            LineKind::PlaylistCompleted
        }
    }

    /// The pattern of the kind.
    pub fn pattern(self) -> (r: &'static str)
        ensures
            r@ == self.pattern_text(),
    {
        match self {
            LineKind::PlaylistDiscovered => "Downloading (\\d+) tracks:",
            LineKind::LoadingPlaylist => "Loading Spotify playlist",
            LineKind::PlaylistNamed => "Playlist: (.+) by (.+)",
            LineKind::Searching => "Searching: (.+)",
            LineKind::Initialize => "Initialize:\\s+(.+)\\s+\\[(\\d+)s/(\\d+)kbps/([0-9.]+)MB\\]",
            LineKind::InProgress => "InProgress:\\s+(.+)\\s+\\[(\\d+)s/(\\d+)kbps/([0-9.]+)MB\\]",
            LineKind::NotFound => "Not found: (.+)",
            LineKind::Succeeded => "Succeeded:\\s+(.+)\\s+\\[(\\d+)s/(\\d+)kbps/([0-9.]+)MB\\]",
            LineKind::PlaylistCompleted => "Completed: (\\d+) succeeded, (\\d+) failed",
        }
    }
}

/// Whether a character is a decimal digit.
pub open spec fn is_digit(c: char) -> bool {
    '0' <= c <= '9'
}

/// The number that a sequence of decimal digits denotes.
pub open spec fn decimal_value(digits: Seq<char>) -> nat
    decreases digits.len(),
{
    if digits.len() == 0 {
        0
    } else {
        (decimal_value(digits.drop_last()) * 10 + (digits.last() as nat - '0' as nat)) as nat
    }
}

/// The count that a text denotes: the text is one or more decimal digits
/// and their number is one that the machine holds.
pub open spec fn count_of(text: Seq<char>) -> Option<nat> {
    if text.len() > 0 && (forall|i: int| 0 <= i < text.len() ==> is_digit(#[trigger] text[i]))
        && decimal_value(text) <= usize::MAX {
        Some(decimal_value(text))
    } else {
        None
    }
}

/// A longer sequence of digits denotes no smaller number than its beginning.
proof fn lemma_decimal_value_grows(digits: Seq<char>, upto: int)
    requires
        0 <= upto <= digits.len(),
        forall|i: int| 0 <= i < digits.len() ==> is_digit(#[trigger] digits[i]),
    ensures
        decimal_value(digits.take(upto)) <= decimal_value(digits),
    decreases digits.len(),
{
    if upto == digits.len() {
        assert(digits.take(upto) =~= digits);
    } else {
        let shorter = digits.drop_last();
        assert(shorter.take(upto) =~= digits.take(upto));
        lemma_decimal_value_grows(shorter, upto);
        assert(is_digit(digits[digits.len() - 1]));
    }
}

/// Reads a count: one or more decimal digits.
pub fn parse_count(text: &str) -> (r: Option<usize>)
    ensures
        count_view(r) == count_of(text@),
{
    if !text.is_ascii() {
        proof {
            let i = choose|i: int|
                0 <= i < text@.len() && !('\0' <= #[trigger] text@[i] <= '\u{7f}');
            assert(!is_digit(text@[i]));
        }
        return None;
    }
    let length = text.unicode_len();
    if length == 0 {
        return None;
    }
    let mut value: usize = 0;
    let mut i: usize = 0;
    while i < length
        invariant
            text.is_ascii(),
            length == text@.len(),
            i <= length,
            value == decimal_value(text@.take(i as int)),
            forall|j: int| 0 <= j < i ==> is_digit(#[trigger] text@[j]),
        decreases length - i,
    {
        let byte = text.get_ascii(i);
        if byte < 48 || byte > 57 {
            assert(!is_digit(text@[i as int]));
            return None;
        }
        assert(is_digit(text@[i as int]));
        let digit: usize = (byte - 48) as usize;
        proof {
            let longer = text@.take(i + 1);
            assert(longer.drop_last() =~= text@.take(i as int));
            assert(longer.last() == text@[i as int]);
            assert(decimal_value(longer) == value * 10 + digit);
        }
        let tenfold = value.checked_mul(10);
        let next = match tenfold {
            Some(t) => t.checked_add(digit),
            None => None,
        };
        match next {
            Some(n) => {
                value = n;
            },
            None => {
                proof {
                    if forall|j: int| 0 <= j < text@.len() ==> is_digit(#[trigger] text@[j]) {
                        lemma_decimal_value_grows(text@, i + 1);
                    }
                }
                return None;
            },
        }
        i = i + 1;
    }
    proof {
        assert(text@.take(length as int) =~= text@);
    }
    Some(value)
}


/// An event that may be absent, as its mathematical value.
pub open spec fn event_view(event: Option<JobEvent>) -> Option<EventView> {
    match event {
        Some(e) => Some(e@),
        None => None,
    }
}

/// The group at an index, absent where the match has no such group or the
/// group took no part in it.
pub open spec fn group_at(groups: Seq<Option<Seq<char>>>, index: int) -> Option<Seq<char>> {
    if 0 <= index < groups.len() {
        groups[index]
    } else {
        None
    }
}

/// The transfer that groups 1 to 4 of a match report, where all four are
/// present.
pub open spec fn transfer_of(groups: Seq<Option<Seq<char>>>) -> Option<TransferView> {
    match (group_at(groups, 1), group_at(groups, 2), group_at(groups, 3), group_at(groups, 4)) {
        (Some(file), Some(elapsed_secs), Some(bitrate_kbps), Some(size_mb)) => Some(
            TransferView { file, elapsed_secs, bitrate_kbps, size_mb },
        ),
        _ => None,
    }
}

impl LineKind {
    /// The event that a match of this kind's pattern stands for: none where
    /// a group that the event needs is missing, or a count cannot be read.
    pub open spec fn event_of(self, groups: Seq<Option<Seq<char>>>) -> Option<EventView> {
        match self {
            LineKind::PlaylistDiscovered => match group_at(groups, 1) {
                Some(total) => match count_of(total) {
                    Some(n) => Some(EventView::PlaylistDiscovered(n)),
                    None => None,
                },
                None => None,
            },
            LineKind::LoadingPlaylist => Some(EventView::LoadingPlaylist),
            LineKind::PlaylistNamed => match (group_at(groups, 1), group_at(groups, 2)) {
                (Some(name), Some(creator)) => Some(EventView::PlaylistNamed(name, creator)),
                _ => None,
            },
            LineKind::Searching => match group_at(groups, 1) {
                Some(name) => Some(EventView::Searching(name)),
                None => None,
            },
            LineKind::Initialize => match transfer_of(groups) {
                Some(transfer) => Some(EventView::Initialize(transfer)),
                None => None,
            },
            LineKind::InProgress => match transfer_of(groups) {
                Some(transfer) => Some(EventView::Progress(transfer)),
                None => None,
            },
            LineKind::NotFound => match group_at(groups, 1) {
                Some(name) => Some(EventView::TrackNotFound(name)),
                None => None,
            },
            LineKind::Succeeded => match transfer_of(groups) {
                Some(transfer) => Some(EventView::TrackSucceeded(transfer)),
                None => None,
            },
            LineKind::PlaylistCompleted => match (group_at(groups, 1), group_at(groups, 2)) {
                (Some(succeeded), Some(failed)) => match (count_of(succeeded), count_of(failed)) {
                    (Some(s), Some(f)) => Some(EventView::PlaylistCompleted(s, f)),
                    _ => None,
                },
                _ => None,
            },
        }
    }

    /// Turns the groups of a match of this kind's pattern into an event.
    pub fn event(self, groups: &Vec<Option<String>>) -> (r: Option<JobEvent>)
        ensures
            event_view(r) == self.event_of(groups.deep_view()),
    {
        match self {
            LineKind::PlaylistDiscovered => match group(groups, 1) {
                Some(total) => match parse_count(total.as_str()) {
                    Some(n) => Some(JobEvent::PlaylistDiscovered(n)),
                    None => None,
                },
                None => None,
            },
            LineKind::LoadingPlaylist => Some(JobEvent::LoadingPlaylist),
            LineKind::PlaylistNamed => match (group(groups, 1), group(groups, 2)) {
                (Some(name), Some(creator)) => Some(
                    JobEvent::PlaylistNamed(name.clone(), creator.clone()),
                ),
                _ => None,
            },
            LineKind::Searching => match group(groups, 1) {
                Some(name) => Some(JobEvent::Searching(name.clone())),
                None => None,
            },
            LineKind::Initialize => match transfer(groups) {
                Some(report) => Some(JobEvent::Initialize(report)),
                None => None,
            },
            LineKind::InProgress => match transfer(groups) {
                Some(report) => Some(JobEvent::Progress(report)),
                None => None,
            },
            LineKind::NotFound => match group(groups, 1) {
                Some(name) => Some(JobEvent::TrackNotFound(name.clone())),
                None => None,
            },
            LineKind::Succeeded => match transfer(groups) {
                Some(report) => Some(JobEvent::TrackSucceeded(report)),
                None => None,
            },
            LineKind::PlaylistCompleted => match (group(groups, 1), group(groups, 2)) {
                (Some(succeeded), Some(failed)) => match (
                    parse_count(succeeded.as_str()),
                    parse_count(failed.as_str()),
                ) {
                    (Some(s), Some(f)) => Some(JobEvent::PlaylistCompleted(s, f)),
                    _ => None,
                },
                _ => None,
            },
        }
    }
}

/// The group at an index, absent where the match has no such group or the
/// group took no part in it.
fn group(groups: &Vec<Option<String>>, index: usize) -> (r: Option<&String>)
    ensures
        r.deep_view() == group_at(groups.deep_view(), index as int),
{
    if index < groups.len() {
        groups[index].as_ref()
    } else {
        None
    }
}

/// The transfer that groups 1 to 4 of a match report, where all four are
/// present.
fn transfer(groups: &Vec<Option<String>>) -> (r: Option<Transfer>)
    ensures
        match r {
            Some(report) => transfer_of(groups.deep_view()) == Some(report@),
            None => transfer_of(groups.deep_view()) is None,
        },
{
    match (group(groups, 1), group(groups, 2), group(groups, 3), group(groups, 4)) {
        (Some(file), Some(elapsed_secs), Some(bitrate_kbps), Some(size_mb)) => Some(
            Transfer::new(
                file.clone(),
                elapsed_secs.clone(),
                bitrate_kbps.clone(),
                size_mb.clone(),
            ),
        ),
        _ => None,
    }
}

/// The event that the first matching pattern from a place of the table
/// onwards makes of a line.
pub open spec fn first_event(line: Seq<char>, from: int) -> Option<EventView>
    decreases LINE_KINDS - from,
{
    if from < 0 || from >= LINE_KINDS {
        None
    } else {
        match captures_of(LineKind::at(from).pattern_text(), line) {
            Some(groups) => LineKind::at(from).event_of(groups),
            None => first_event(line, from + 1),
        }
    }
}

/// The event that a line stands for, if any.
pub open spec fn classification(line: Seq<char>) -> Option<EventView> {
    first_event(line, 0)
}

/// Whether every pattern of the table compiles.
pub open spec fn table_compiles() -> bool {
    forall|place: int|
        0 <= place < LINE_KINDS ==> compiles(#[trigger] LineKind::at(place).pattern_text())
}

/// The compiled table of line patterns.
pub struct Classifier {
    rules: Vec<regex::Regex>,
}

impl Classifier {
    #[verifier::type_invariant]
    spec fn holds_the_table(self) -> bool {
        &&& self.rules@.len() == LINE_KINDS
        &&& forall|place: int|
            0 <= place < LINE_KINDS ==> pattern_of(#[trigger] self.rules@[place]) == LineKind::at(
                place,
            ).pattern_text()
    }

    /// Compiles the table. There is a classifier exactly if every pattern
    /// compiles.
    pub fn new() -> (r: Option<Classifier>)
        ensures
            r is Some <==> table_compiles(),
    {
        let mut rules: Vec<regex::Regex> = Vec::new();
        let mut place: usize = 0;
        while place < LINE_KINDS
            invariant
                place <= LINE_KINDS,
                rules@.len() == place,
                forall|p: int|
                    0 <= p < place ==> pattern_of(#[trigger] rules@[p]) == LineKind::at(
                        p,
                    ).pattern_text(),
                forall|p: int|
                    0 <= p < place ==> compiles(#[trigger] LineKind::at(p).pattern_text()),
            decreases LINE_KINDS - place,
        {
            match regex::Regex::new(LineKind::nth(place).pattern()) {
                Ok(compiled) => {
                    rules.push(compiled);
                },
                Err(_) => {
                    assert(!compiles(LineKind::at(place as int).pattern_text()));
                    return None;
                },
            }
            place = place + 1;
        }
        Some(Classifier { rules })
    }

    /// Classifies a line: the event that it stands for, if any.
    pub fn classify(&self, line: &str) -> (r: Option<JobEvent>)
        ensures
            event_view(r) == classification(line@),
    {
        proof {
            use_type_invariant(self);
        }
        let mut place: usize = 0;
        while place < LINE_KINDS
            invariant
                place <= LINE_KINDS,
                self.rules@.len() == LINE_KINDS,
                forall|p: int|
                    0 <= p < LINE_KINDS ==> pattern_of(#[trigger] self.rules@[p]) == LineKind::at(
                        p,
                    ).pattern_text(),
                first_event(line@, place as int) == classification(line@),
            decreases LINE_KINDS - place,
        {
            match capture_groups(&self.rules[place], line) {
                Some(groups) => {
                    return LineKind::nth(place).event(&groups);
                },
                None => {},
            }
            place = place + 1;
        }
        None
    }
}

} // verus!
