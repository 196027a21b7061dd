//! Diagnostics, the arguments of the program, and paths of source files.

use crate::text::{
    append_decimal, decimal, is_char, is_char_pair, join, join_texts, split, split_text,
    string_views, views,
};
use vstd::prelude::*;
use vstd::string::*;

verus! {

/// A position in a source file.
#[derive(Debug, PartialEq, Eq, Clone, Structural)]
pub struct LoPosition {
    pub offset: usize,
    pub line: usize,
    pub col: usize,
}

/// A stretch of a source file, from `pos` to `end_pos`.
#[derive(Debug, PartialEq, Clone)]
pub struct LoLocation {
    pub file_name: String,
    pub pos: LoPosition,
    pub end_pos: LoPosition,
}

/// What a location says, with the file name as a sequence of characters.
pub struct LoLocationView {
    pub file_name: Seq<char>,
    pub pos: LoPosition,
    pub end_pos: LoPosition,
}

/// A failure: what went wrong, and where.
#[derive(Debug, PartialEq)]
pub struct LoError {
    pub message: String,
    pub loc: LoLocation,
}

/// What an error says, with its texts as sequences of characters.
pub struct LoErrorView {
    pub message: Seq<char>,
    pub loc: LoLocationView,
}

impl View for LoLocation {
    type V = LoLocationView;

    open spec fn view(&self) -> LoLocationView {
        LoLocationView { file_name: self.file_name@, pos: self.pos, end_pos: self.end_pos }
    }
}

impl View for LoError {
    type V = LoErrorView;

    open spec fn view(&self) -> LoErrorView {
        LoErrorView { message: self.message@, loc: self.loc@ }
    }
}

impl LoLocationView {
    /// The place that stands for "no place in any source file": the first
    /// column of the first line of a file called `<internal>`.
    pub open spec fn internal() -> LoLocationView {
        LoLocationView {
            file_name: "<internal>"@,
            pos: LoPosition { offset: 0, line: 1, col: 1 },
            end_pos: LoPosition { offset: 0, line: 1, col: 1 },
        }
    }

    /// The location as it is shown to a reader: file, line and column of
    /// its start, separated by colons.
    pub open spec fn text(self) -> Seq<char> {
        self.file_name + ":"@ + decimal(self.pos.line as nat) + ":"@ + decimal(self.pos.col as nat)
    }

    /// The stretch as it is shown to a reader: line and column of the start,
    /// a hyphen, line and column of the end.
    pub open spec fn range_text(self) -> Seq<char> {
        decimal(self.pos.line as nat) + ":"@ + decimal(self.pos.col as nat) + "-"@ + decimal(
            self.end_pos.line as nat,
        ) + ":"@ + decimal(self.end_pos.col as nat)
    }
}

impl LoErrorView {
    /// The error that reports a broken invariant of the compiler itself. It
    /// names the place in the compiler that found it, and carries the
    /// internal location, since no place in the user's source is at fault.
    pub open spec fn unreachable(file: Seq<char>, line: u32) -> LoErrorView {
        LoErrorView {
            message: "Unreachable in "@ + file + ":"@ + decimal(line as nat),
            loc: LoLocationView::internal(),
        }
    }

    /// The error as it is shown to a reader: the location, then the message.
    pub open spec fn text(self) -> Seq<char> {
        self.loc.text() + " - "@ + self.message
    }
}

impl LoLocation {
    /// The location of errors that no place in a source file accounts for.
    pub fn internal() -> (loc: Self)
        ensures
            loc@ == LoLocationView::internal(),
    {
        LoLocation {
            file_name: String::from_str("<internal>"),
            pos: LoPosition { offset: 0, line: 1, col: 1 },
            end_pos: LoPosition { offset: 0, line: 1, col: 1 },
        }
    }

    /// The location as text: `file:line:col` of its start.
    pub fn to_string(&self) -> (text: String)
        ensures
            text@ == self@.text(),
    {
        let mut text = self.file_name.clone();
        text.append(":");
        append_decimal(&mut text, self.pos.line as u64);
        text.append(":");
        append_decimal(&mut text, self.pos.col as u64);
        text
    }
}

impl LoError {
    /// The error for a state that earlier stages of the compiler should have
    /// made impossible, found at `line` of the compiler's own file `file`.
    pub fn unreachable(file: &str, line: u32) -> (err: LoError)
        ensures
            err@ == LoErrorView::unreachable(file@, line),
    {
        let mut message = String::from_str("Unreachable in ");
        message.append(file);
        message.append(":");
        append_decimal(&mut message, line as u64);
        LoError { message, loc: LoLocation::internal() }
    }

    /// The error as text: its location, then ` - `, then its message.
    pub fn to_string(&self) -> (text: String)
        ensures
            text@ == self@.text(),
    {
        let mut text = self.loc.to_string();
        text.append(" - ");
        text.append(self.message.as_str());
        text
    }
}

impl From<LoError> for String {
    /// The error as text, as `LoError::to_string` gives it.
    fn from(err: LoError) -> (text: String)
        ensures
            text@ == err@.text(),
    {
        err.to_string()
    }
}

/// The conversion names no string as its result: two strings that hold the
/// same text need not be the same string, so the contract of `from` speaks
/// of the text alone.
impl vstd::std_specs::convert::FromSpecImpl<LoError> for String {
    open spec fn obeys_from_spec() -> bool {
        false
    }

    open spec fn from_spec(err: LoError) -> String {
        err.message
    }
}

/// The arguments that the program was started with. An argument that is not
/// valid UTF-8 has no text.
pub struct WasiArgs {
    args: Vec<Option<String>>,
}

impl View for WasiArgs {
    type V = Seq<Option<Seq<char>>>;

    closed spec fn view(&self) -> Seq<Option<Seq<char>>> {
        Seq::new(
            self.args@.len(),
            |i: int|
                match self.args@[i] {
                    Some(text) => Some(text@),
                    None => None,
                },
        )
    }
}

impl WasiArgs {
    /// The arguments in the order given, `None` for each one that could not
    /// be read as text.
    pub fn new(args: Vec<Option<String>>) -> (loaded: Self)
        ensures
            loaded@.len() == args@.len(),
            forall|i: int|
                0 <= i < args@.len() ==> #[trigger] loaded@[i] == match args@[i] {
                    Some(text) => Some(text@),
                    None => None,
                },
    {
        WasiArgs { args }
    }

    /// The number of arguments, the program's own name included.
    pub fn len(&self) -> (count: usize)
        ensures
            count == self@.len(),
    {
        self.args.len()
    }

    /// The text of the argument at `index`. There is none beyond the last
    /// argument, and none for an argument that is not valid UTF-8.
    pub fn get(&self, index: usize) -> (arg: Option<&str>)
        ensures
            match arg {
                Some(text) => index < self@.len() && self@[index as int] == Some(text@),
                None => index >= self@.len() || self@[index as int] is None,
            },
    {
        if index >= self.len() {
            return None;
        }
        match &self.args[index] {
            Some(text) => Some(text.as_str()),
            None => None,
        }
    }
}

/// What is left of a list of path segments once `.` and `..` have been
/// followed. The segments in `stack` have been walked already and `rest` is
/// still ahead: a `.` stays where it is, a `..` steps back over the last
/// segment walked, if there is one, and anything else is walked. A `..` with
/// nothing to step back over is kept as a segment.
pub open spec fn collapse(stack: Seq<Seq<char>>, rest: Seq<Seq<char>>) -> Seq<Seq<char>>
    decreases rest.len(),
{
    if rest.len() == 0 {
        stack
    } else {
        let item = rest[0];
        let ahead = rest.drop_first();
        if item == seq!['.'] {
            collapse(stack, ahead)
        } else if item == seq!['.', '.'] && stack.len() > 0 {
            collapse(stack.drop_last(), ahead)
        } else {
            collapse(stack.push(item), ahead)
        }
    }
}

/// The path that `file_path` names when it is written in the file
/// `relative_to`. A path that does not start with a dot is taken as it is.
/// Any other is appended to the directory of `relative_to`, which is
/// `relative_to` without its last segment, and `.` and `..` are followed.
pub open spec fn resolved_path(file_path: Seq<char>, relative_to: Seq<char>) -> Seq<char> {
    if file_path.len() == 0 || file_path[0] != '.' {
        file_path
    } else {
        join(
            collapse(
                Seq::empty(),
                split(relative_to, '/').drop_last() + split(file_path, '/'),
            ),
            seq!['/'],
        )
    }
}

/// Resolves a path written in the file `relative_to` against the directory
/// of that file.
pub fn resolve_path(file_path: &str, relative_to: &str) -> (resolved: String)
    ensures
        resolved@ == resolved_path(file_path@, relative_to@),
{
    if file_path.unicode_len() == 0 || file_path.get_char(0) != '.' {
        return String::from_str(file_path);
    }
    let mut items = split_text(relative_to, '/');
    let ghost directory = views(items@).drop_last();
    items.pop();
    let mut more = split_text(file_path, '/');
    let ghost appended = views(more@);
    items.append(&mut more);
    let ghost all = views(items@);
    proof {
        crate::text::lemma_split_nonempty(relative_to@, '/');
        assert(all =~= directory + appended);
    }
    let mut stack: Vec<&str> = Vec::new();
    let mut i: usize = 0;
    proof {
        assert(views(stack@) =~= Seq::<Seq<char>>::empty());
        assert(all.skip(0) =~= all);
    }
    while i < items.len()
        invariant
            i <= items.len(),
            all == views(items@),
            collapse(views(stack@), all.skip(i as int)) == collapse(Seq::empty(), all),
        decreases items.len() - i,
    {
        let item = items[i];
        let ghost walked = views(stack@);
        proof {
            assert(all.skip(i as int)[0] == item@);
            assert(all.skip(i as int).drop_first() =~= all.skip(i + 1));
        }
        if is_char(item, '.') {
        } else if is_char_pair(item, '.') && stack.len() > 0 {
            stack.pop();
            proof {
                assert(views(stack@) =~= walked.drop_last());
            }
        } else {
            stack.push(item);
            proof {
                assert(views(stack@) =~= walked.push(item@));
            }
        }
        i += 1;
    }
    proof {
        reveal_strlit("/");
        assert("/"@ =~= seq!['/']);
    }
    join_texts(&stack, "/")
}

/// A list of items that have been turned into text, to be shown with a
/// comma and a space between each two.
pub struct ListDisplay<'a>(pub &'a Vec<String>);

impl<'a> ListDisplay<'a> {
    /// The list as text.
    pub fn to_string(&self) -> (text: String)
        ensures
            text@ == join(string_views(self.0@), ", "@),
    {
        let items = self.0;
        let mut text = String::new();
        let mut i: usize = 0;
        while i < items.len()
            invariant
                i <= items.len(),
                text@ == join(string_views(items@).take(i as int), ", "@),
            decreases items.len() - i,
        {
            let ghost all = string_views(items@);
            proof {
                assert(all.take(i + 1).drop_last() =~= all.take(i as int));
                assert(all.take(i + 1).last() == items@[i as int]@);
            }
            if i > 0 {
                text.append(", ");
            } else {
                proof {
                    assert(Seq::<char>::empty() + items@[0]@ =~= items@[0]@);
                }
            }
            text.append(items[i].as_str());
            i += 1;
        }
        proof {
            assert(string_views(items@).take(i as int) =~= string_views(items@));
        }
        text
    }
}

/// A location, to be shown as the stretch it covers.
pub struct RangeDisplay<'a>(pub &'a LoLocation);

impl<'a> RangeDisplay<'a> {
    /// The stretch as text: `line:col-line:col`, start then end.
    pub fn to_string(&self) -> (text: String)
        ensures
            text@ == self.0@.range_text(),
    {
        let loc = self.0;
        let mut text = String::new();
        proof {
            assert(Seq::<char>::empty() + decimal(loc.pos.line as nat) =~= decimal(
                loc.pos.line as nat,
            ));
        }
        append_decimal(&mut text, loc.pos.line as u64);
        text.append(":");
        append_decimal(&mut text, loc.pos.col as u64);
        text.append("-");
        append_decimal(&mut text, loc.end_pos.line as u64);
        text.append(":");
        append_decimal(&mut text, loc.end_pos.col as u64);
        text
    }
}

/// What one attempt to read from a file descriptor came to.
pub enum ReadEvent<'a> {
    /// The bytes that were read; none at the end of the input.
    Data(&'a [u8]),
    /// The read failed, with the error code that the system gave.
    Failed { errno: u16 },
}

/// What to do after an attempt to read.
#[derive(Clone, Copy, Debug, PartialEq, Eq, Structural)]
pub enum ReadAction {
    /// Read again.
    Continue,
    /// The input is complete. The descriptor is to be closed if `close` is
    /// set: the standard input is left open.
    Finish { close: bool },
    /// The input cannot be read: report the failure and give up.
    Fail,
}

/// The descriptor of the standard input.
pub const STDIN_FD: u32 = 0;

/// The error code of a read that found nothing to read yet and asks to be
/// tried again.
pub const ERRNO_AGAIN: u16 = 6;

/// The decision that follows an attempt to read from `fd`, as a function of
/// what the attempt came to.
pub open spec fn read_decision(fd: u32, event: ReadEvent) -> ReadAction {
    match event {
        ReadEvent::Data(bytes) => if bytes@.len() == 0 {
            ReadAction::Finish { close: fd != STDIN_FD }
        } else {
            ReadAction::Continue
        },
        ReadEvent::Failed { errno } => if fd == STDIN_FD && errno == ERRNO_AGAIN {
            ReadAction::Finish { close: false }
        } else {
            ReadAction::Fail
        },
    }
}

/// One step of reading a file descriptor to its end. Bytes that were read
/// are added to `output`. An empty read ends the input; so does "try again"
/// on the standard input, which then is empty. Any other failure is final.
pub fn read_step(fd: u32, event: ReadEvent, output: &mut Vec<u8>) -> (action: ReadAction)
    ensures
        action == read_decision(fd, event),
        final(output)@ == match event {
            ReadEvent::Data(bytes) => old(output)@ + bytes@,
            ReadEvent::Failed { .. } => old(output)@,
        },
{
    match event {
        ReadEvent::Data(bytes) => {
            if bytes.len() == 0 {
                assert(output@ + bytes@ =~= output@);
                ReadAction::Finish { close: fd != STDIN_FD }
            } else {
                output.extend_from_slice(bytes);
                ReadAction::Continue
            }
        },
        ReadEvent::Failed { errno } => {
            if fd == STDIN_FD && errno == ERRNO_AGAIN {
                ReadAction::Finish { close: false }
            } else {
                ReadAction::Fail
            }
        },
    }
}

/// The message that reports a failed read: the descriptor, and the error as
/// the system names it.
pub open spec fn read_error_text(fd: u32, err: Seq<char>) -> Seq<char> {
    "Error reading file: fd="@ + decimal(fd as nat) + ", err="@ + err + "\n"@
}

/// Writes the message for a read of `fd` that failed with `err`.
pub fn read_error_message(fd: u32, err: &str) -> (message: String)
    ensures
        message@ == read_error_text(fd, err@),
{
    let mut message = String::from_str("Error reading file: fd=");
    append_decimal(&mut message, fd as u64);
    message.append(", err=");
    message.append(err);
    message.append("\n");
    message
}

} // verus!
