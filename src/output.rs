//! What is printed around matched lines and at the end of a replace run.
use vstd::prelude::*;

verus! {

/// What goes out before a matched line.
#[derive(PartialEq, Eq, Structural, Clone, Copy, Debug)]
pub enum Lead {
    /// Nothing: the line belongs to the file whose header is already out.
    Nothing,
    /// The file's header; this is the first file with output.
    Header,
    /// A blank separator line, then the file's header.
    SeparatorAndHeader,
}

/// The lead that a line of `file` gets when `active` is the file whose
/// header was printed last, if any.
pub open spec fn lead_for(active: Option<Seq<char>>, file: Seq<char>) -> Lead {
    match active {
        None => Lead::Header,
        Some(g) => if g == file {
            Lead::Nothing
        } else {
            Lead::SeparatorAndHeader
        },
    }
}

/// The file whose header was printed last, if any.
pub struct OutputCursor {
    last: Option<String>,
}

impl OutputCursor {
    pub closed spec fn active(&self) -> Option<Seq<char>> {
        match self.last {
            Some(s) => Some(s@),
            None => None,
        }
    }

    /// A cursor before any output.
    pub fn new() -> (r: OutputCursor)
        ensures
            r.active().is_none(),
    {
        OutputCursor { last: None }
    }

    /// Records that a matched line of `file` is about to be printed and
    /// says what has to be printed before it.
    pub fn begin_line(&mut self, file: &str) -> (r: Lead)
        ensures
            r == lead_for(old(self).active(), file@),
            final(self).active() == Some(file@),
    {
        let name = file.to_owned();
        let lead = match &self.last {
            None => Lead::Header,
            Some(g) => if *g == name {
                Lead::Nothing
            } else {
                Lead::SeparatorAndHeader
            },
        };
        self.last = Some(name);
        lead
    }
}

/// The leads of a stream of matched lines, given the file of each, starting
/// from `active`.
pub open spec fn leads(active: Option<Seq<char>>, files: Seq<Seq<char>>) -> Seq<Lead>
    decreases files.len(),
{
    if files.len() == 0 {
        seq![]
    } else {
        seq![lead_for(active, files[0])] + leads(Some(files[0]), files.drop_first())
    }
}

/// Lines whose file differs from the one before them start a new group.
pub open spec fn starts_group(files: Seq<Seq<char>>, i: int) -> bool {
    i == 0 || files[i] != files[i - 1]
}

/// From a fresh cursor, a header comes exactly before each line that starts
/// a new group of lines of one file, and a separator comes with every header
/// but the first.
pub proof fn lemma_headers_once_per_group(files: Seq<Seq<char>>, i: int)
    requires
        0 <= i < files.len(),
    ensures
        leads(None, files).len() == files.len(),
        (leads(None, files)[i] != Lead::Nothing) == starts_group(files, i),
        (leads(None, files)[i] == Lead::Header) == (i == 0),
{
    lemma_leads_shape(None, files, i);
}

proof fn lemma_leads_shape(active: Option<Seq<char>>, files: Seq<Seq<char>>, i: int)
    requires
        0 <= i < files.len(),
    ensures
        leads(active, files).len() == files.len(),
        leads(active, files)[i] == (if i == 0 {
            lead_for(active, files[0])
        } else {
            lead_for(Some(files[i - 1]), files[i])
        }),
    decreases files.len(),
{
    lemma_leads_len(active, files);
    if i > 0 {
        let rest = files.drop_first();
        lemma_leads_shape(Some(files[0]), rest, i - 1);
        if i > 1 {
            assert(rest[i - 2] == files[i - 1]);
        }
    }
}

proof fn lemma_leads_len(active: Option<Seq<char>>, files: Seq<Seq<char>>)
    ensures
        leads(active, files).len() == files.len(),
    decreases files.len(),
{
    if files.len() > 0 {
        lemma_leads_len(Some(files[0]), files.drop_first());
    }
}

/// The decimal digits of `n`.
pub open spec fn decimal(n: nat) -> Seq<char>
    decreases n,
{
    if n < 10 {
        seq![digit_char(n)]
    } else {
        decimal(n / 10) + seq![digit_char(n % 10)]
    }
}

pub open spec fn digit_char(d: nat) -> char {
    if d < 10 {
        ((d + 48) as u8) as char
    } else {
        '?'
    }
}

fn digit_str(d: usize) -> (r: &'static str)
    requires
        d < 10,
    ensures
        r@ == seq![digit_char(d as nat)],
{
    let r = if d == 0 {
        "0"
    } else if d == 1 {
        "1"
    } else if d == 2 {
        "2"
    } else if d == 3 {
        "3"
    } else if d == 4 {
        "4"
    } else if d == 5 {
        "5"
    } else if d == 6 {
        "6"
    } else if d == 7 {
        "7"
    } else if d == 8 {
        "8"
    } else {
        "9"
    };
    proof {
        reveal_strlit("0");
        reveal_strlit("1");
        reveal_strlit("2");
        reveal_strlit("3");
        reveal_strlit("4");
        reveal_strlit("5");
        reveal_strlit("6");
        reveal_strlit("7");
        reveal_strlit("8");
        reveal_strlit("9");
    }
    assert(r@ =~= seq![digit_char(d as nat)]);
    r
}

/// `n` written in decimal.
pub fn decimal_string(n: usize) -> (r: String)
    ensures
        r@ == decimal(n as nat),
    decreases n,
{
    if n < 10 {
        digit_str(n).to_owned()
    } else {
        let mut s = decimal_string(n / 10);
        s.append(digit_str(n % 10));
        s
    }
}

/// `k` spaces.
pub open spec fn spaces(k: nat) -> Seq<char>
    decreases k,
{
    if k == 0 {
        seq![]
    } else {
        spaces((k - 1) as nat) + seq![' ']
    }
}

/// How wide the line number field of a matched line is at least.
pub const NUMBER_WIDTH: usize = 5;

/// `digits` right-aligned in a field of `NUMBER_WIDTH` characters.
pub open spec fn right_aligned(digits: Seq<char>) -> Seq<char> {
    if digits.len() < NUMBER_WIDTH {
        spaces((NUMBER_WIDTH - digits.len()) as nat) + digits
    } else {
        digits
    }
}

/// The number of a matched line, in decimal, right-aligned in a field of at
/// least `NUMBER_WIDTH` characters.
pub fn number_field(n: usize) -> (r: String)
    ensures
        r@ == right_aligned(decimal(n as nat)),
{
    let digits = decimal_string(n);
    let len = digits.as_str().unicode_len();
    if len >= NUMBER_WIDTH {
        return digits;
    }
    let mut r = String::new();
    let mut k: usize = 0;
    while k < NUMBER_WIDTH - len
        invariant
            len < NUMBER_WIDTH,
            k <= NUMBER_WIDTH - len,
            r@ == spaces(k as nat),
        decreases NUMBER_WIDTH - len - k,
    {
        r.append(" ");
        proof {
            reveal_strlit(" ");
        }
        assert(spaces((k + 1) as nat) == spaces(k as nat) + seq![' ']);
        assert(r@ =~= spaces((k + 1) as nat));
        k = k + 1;
    }
    r.append(digits.as_str());
    r
}

/// How many files a replace run changed.
pub struct ChangeCounter {
    pub count: usize,
}

/// The closing line of a replace run.
pub open spec fn summary_text(count: nat) -> Seq<char> {
    if count == 0 {
        "No files changed"@
    } else {
        decimal(count) + " files changed"@
    }
}

impl ChangeCounter {
    /// A counter at zero.
    pub fn new() -> (r: ChangeCounter)
        ensures
            r.count == 0,
    {
        ChangeCounter { count: 0 }
    }

    /// Counts one more file when `changed` is set; saturates at the
    /// largest count.
    pub fn record(&mut self, changed: bool)
        ensures
            final(self).count == if changed && old(self).count < usize::MAX {
                old(self).count + 1
            } else {
                old(self).count as int
            },
    {
        if changed && self.count < usize::MAX {
            self.count = self.count + 1;
        }
    }

    /// `N files changed`, or `No files changed` when none was.
    pub fn summary(&self) -> (r: String)
        ensures
            r@ == summary_text(self.count as nat),
    {
        if self.count == 0 {
            let r = "No files changed".to_owned();
            proof {
                reveal_strlit("No files changed");
            }
            r
        } else {
            let mut r = decimal_string(self.count);
            r.append(" files changed");
            proof {
                reveal_strlit(" files changed");
            }
            r
        }
    }
}

} // verus!
