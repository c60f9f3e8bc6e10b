//! The diary record, the text of the file it is stored as, and what its date
//! decides: where the file lies and how the commit is named.

use vstd::prelude::*;
use vstd::string::*;

verus! {

/// A submitted diary entry.
#[derive(Debug, PartialEq, Eq)]
pub struct Diary {
    pub title: String,
    pub content: String,
    pub date: String,
}

/// A diary entry as three texts.
pub struct DiaryView {
    pub title: Seq<char>,
    pub content: Seq<char>,
    pub date: Seq<char>,
}

impl View for Diary {
    type V = DiaryView;

    open spec fn view(&self) -> DiaryView {
        DiaryView { title: self.title@, content: self.content@, date: self.date@ }
    }
}

/// The text of the stored file: a front-matter block that holds the title, a
/// blank line, then the content as it was given. The title is not escaped.
pub open spec fn file_text(title: Seq<char>, content: Seq<char>) -> Seq<char> {
    "---\ntitle: "@ + title + "\n---\n\n"@ + content
}

pub open spec fn is_digit(c: char) -> bool {
    '0' <= c <= '9'
}

/// What the character at position `i` of a date must be: a hyphen after the
/// year and after the month, a decimal digit anywhere else.
pub open spec fn date_char_ok(i: int, c: char) -> bool {
    if i == 4 || i == 7 {
        c == '-'
    } else {
        is_digit(c)
    }
}

/// A date has the shape `YYYY-MM-DD`: four digits, two digits and two digits,
/// with a hyphen between them. The digits are not read as a calendar date.
pub open spec fn is_date(date: Seq<char>) -> bool {
    &&& date.len() == 10
    &&& forall|i: int| 0 <= i < 10 ==> date_char_ok(i, #[trigger] date[i])
}

pub open spec fn year_of(date: Seq<char>) -> Seq<char> {
    date.subrange(0, 4)
}

pub open spec fn month_of(date: Seq<char>) -> Seq<char> {
    date.subrange(5, 7)
}

pub open spec fn day_of(date: Seq<char>) -> Seq<char> {
    date.subrange(8, 10)
}

/// `<year>/<month>/<day>`, the part that the file's path and the commit
/// message share.
pub open spec fn date_path(date: Seq<char>) -> Seq<char> {
    year_of(date) + seq!['/'] + month_of(date) + seq!['/'] + day_of(date)
}

/// The directory in which the entry of a date is stored:
/// `<root>/<year>/<month>`.
pub open spec fn target_directory_text(root: Seq<char>, date: Seq<char>) -> Seq<char> {
    root + seq!['/'] + year_of(date) + seq!['/'] + month_of(date)
}

/// Where the entry of a date is stored: `<root>/<year>/<month>/<day>.md`.
pub open spec fn target_path_text(root: Seq<char>, date: Seq<char>) -> Seq<char> {
    root + seq!['/'] + date_path(date) + ".md"@
}

/// How the commit of a date is named: `<year>/<month>/<day> (from web)`.
pub open spec fn commit_message_text(date: Seq<char>) -> Seq<char> {
    date_path(date) + " (from web)"@
}

/// Formatting is a function of the title and the content alone: two entries
/// that agree in both are stored as the same text, whatever their dates.
pub proof fn lemma_same_entry_same_text(a: DiaryView, b: DiaryView)
    requires
        a.title == b.title,
        a.content == b.content,
    ensures
        file_text(a.title, a.content) == file_text(b.title, b.content),
{
}

/// Whether a text is made of decimal digits alone.
pub open spec fn all_digits(text: Seq<char>) -> bool {
    forall|i: int| 0 <= i < text.len() ==> is_digit(#[trigger] text[i])
}

/// A well-formed date is its year, month and day with hyphens between them,
/// and each of the three is a run of digits of its own length: none is
/// empty, and none holds a character that means something in a path.
pub proof fn lemma_date_parts(date: Seq<char>)
    requires
        is_date(date),
    ensures
        date == year_of(date) + seq!['-'] + month_of(date) + seq!['-'] + day_of(date),
        year_of(date).len() == 4 && all_digits(year_of(date)),
        month_of(date).len() == 2 && all_digits(month_of(date)),
        day_of(date).len() == 2 && all_digits(day_of(date)),
{
    assert(date =~= year_of(date) + seq!['-'] + month_of(date) + seq!['-'] + day_of(date));
}

/// The file of an entry lies in the directory of the entry, under the name
/// `<day>.md`.
pub proof fn lemma_path_in_directory(root: Seq<char>, date: Seq<char>)
    ensures
        target_path_text(root, date) == target_directory_text(root, date) + seq!['/'] + day_of(
            date,
        ) + ".md"@,
{
    assert(target_path_text(root, date) =~= target_directory_text(root, date) + seq!['/'] + day_of(
        date,
    ) + ".md"@);
}

/// A well-formed date is plain ASCII.
pub proof fn lemma_date_is_ascii(date: Seq<char>)
    requires
        is_date(date),
    ensures
        vstd::utf8::is_ascii_chars(date),
{
}

impl Diary {
    /// Formats the entry as the text of its file.
    pub fn to_file(&self) -> (text: String)
        ensures
            text@ == file_text(self.title@, self.content@),
    {
        let mut text = String::from_str("---\ntitle: ");
        text.append(self.title.as_str());
        text.append("\n---\n\n");
        text.append(self.content.as_str());
        text
    }

    /// Whether the date has the shape `YYYY-MM-DD`.
    pub fn has_valid_date(&self) -> (ok: bool)
        ensures
            ok == is_date(self.date@),
    {
        let date = self.date.as_str();
        if !date.is_ascii() {
            proof {
                if is_date(date@) {
                    lemma_date_is_ascii(date@);
                }
            }
            return false;
        }
        proof {
            is_ascii_spec_bytes(date);
        }
        let len: usize = date.as_bytes().len();
        if len != 10 {
            return false;
        }
        let mut i: usize = 0;
        while i < 10
            invariant
                i <= 10,
                date@ == self.date@,
                date@.len() == 10,
                date.is_ascii(),
                forall|j: int| 0 <= j < i ==> date_char_ok(j, #[trigger] date@[j]),
            decreases 10 - i,
        {
            let b: u8 = date.get_ascii(i);
            let ok = if i == 4 || i == 7 {
                b == 45
            } else {
                48 <= b && b <= 57
            };
            if !ok {
                return false;
            }
            i += 1;
        }
        true
    }

    /// The path of the entry's file under `root`, if the date is well formed.
    /// A date of any other shape gives no path: it is never cut or padded
    /// into one.
    pub fn target_path(&self, root: &str) -> (path: Option<String>)
        ensures
            is_date(self.date@) ==> path is Some && path->0@ == target_path_text(
                root@,
                self.date@,
            ),
            !is_date(self.date@) ==> path is None,
    {
        if !self.has_valid_date() {
            return None;
        }
        let mut path = String::from_str(root);
        path.append("/");
        self.append_date_path(&mut path);
        path.append(".md");
        proof {
            reveal_strlit("/");
        }
        Some(path)
    }

    /// The directory of the entry's file under `root`, if the date is well
    /// formed.
    pub fn target_directory(&self, root: &str) -> (directory: Option<String>)
        ensures
            is_date(self.date@) ==> directory is Some && directory->0@ == target_directory_text(
                root@,
                self.date@,
            ),
            !is_date(self.date@) ==> directory is None,
    {
        if !self.has_valid_date() {
            return None;
        }
        let date = self.date.as_str();
        proof {
            lemma_date_is_ascii(date@);
            reveal_strlit("/");
        }
        let mut directory = String::from_str(root);
        directory.append("/");
        directory.append(date.substring_ascii(0, 4));
        directory.append("/");
        directory.append(date.substring_ascii(5, 7));
        Some(directory)
    }

    /// The message of the entry's commit, if the date is well formed.
    pub fn commit_message(&self) -> (message: Option<String>)
        ensures
            is_date(self.date@) ==> message is Some && message->0@ == commit_message_text(
                self.date@,
            ),
            !is_date(self.date@) ==> message is None,
    {
        if !self.has_valid_date() {
            return None;
        }
        let mut message = String::new();
        self.append_date_path(&mut message);
        message.append(" (from web)");
        Some(message)
    }

    fn append_date_path(&self, text: &mut String)
        requires
            is_date(self.date@),
        ensures
            final(text)@ == old(text)@ + date_path(self.date@),
    {
        let date = self.date.as_str();
        proof {
            lemma_date_is_ascii(date@);
            reveal_strlit("/");
        }
        text.append(date.substring_ascii(0, 4));
        text.append("/");
        text.append(date.substring_ascii(5, 7));
        text.append("/");
        text.append(date.substring_ascii(8, 10));
    }
}

} // verus!
