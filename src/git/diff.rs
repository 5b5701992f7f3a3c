use vstd::prelude::*;

verus! {

/// `ceil(len / 4)`: the token estimate for a text of `len` characters.
pub open spec fn estimate_tokens(len: nat) -> nat {
    (len + 3) / 4
}

/// The staged changes of a repository: the diff text, the number of files it
/// touches and the token estimate derived from the text.
#[derive(Debug)]
pub struct DiffResult {
    raw: String,
    files_changed: usize,
    estimated_tokens: usize,
}

impl DiffResult {
    #[verifier::type_invariant]
    spec fn consistent(&self) -> bool {
        self.estimated_tokens as nat == estimate_tokens(self.raw@.len())
    }

    /// The diff text.
    pub closed spec fn raw_text(&self) -> Seq<char> {
        self.raw@
    }

    /// The number of files changed.
    pub closed spec fn files(&self) -> nat {
        self.files_changed as nat
    }

    /// The stored token estimate; the type invariant ties it to the text.
    pub closed spec fn tokens(&self) -> nat {
        self.estimated_tokens as nat
    }

    /// Builds the summary; the estimate is computed from `raw`, never given.
    pub fn new(raw: String, files_changed: usize) -> (r: Self)
        ensures
            r.raw_text() == raw@,
            r.files() == files_changed as nat,
            r.tokens() == estimate_tokens(raw@.len()),
    {
        let len = raw.as_str().unicode_len();
        let rem: usize = if len % 4 == 0 { 0 } else { 1 };
        let estimated_tokens = len / 4 + rem;
        assert(estimated_tokens as nat == estimate_tokens(len as nat));
        DiffResult { raw, files_changed, estimated_tokens }
    }

    pub fn raw(&self) -> (r: &String)
        ensures
            r@ == self.raw_text(),
    {
        &self.raw
    }

    pub fn files_changed(&self) -> (r: usize)
        ensures
            r as nat == self.files(),
    {
        self.files_changed
    }

    pub fn estimated_tokens(&self) -> (r: usize)
        ensures
            r as nat == self.tokens(),
            r as nat == estimate_tokens(self.raw_text().len()),
    {
        proof {
            use_type_invariant(self);
        }
        self.estimated_tokens
    }

    pub fn is_empty(&self) -> (r: bool)
        ensures
            r == (self.raw_text().len() == 0),
    {
        self.raw.as_str().unicode_len() == 0
    }
}

/// The marker a diff line contributes: its origin when that is `+`, `-` or
/// a space, nothing otherwise.
pub open spec fn line_marker(origin: char) -> Seq<char> {
    if origin == '+' || origin == '-' || origin == ' ' {
        seq![origin]
    } else {
        Seq::empty()
    }
}

/// The text a diff line contributes: its marker, then its content when the
/// content is text.
pub open spec fn line_text(origin: char, content: Option<Seq<char>>) -> Seq<char> {
    line_marker(origin) + match content {
        Some(c) => c,
        None => Seq::empty(),
    }
}

/// Appends one line of a diff to the text gathered so far; content that is
/// not text is passed as `None` and adds nothing.
pub fn push_diff_line(raw: &mut String, origin: char, content: Option<&str>)
    ensures
        final(raw)@ == old(raw)@ + line_text(
            origin,
            match content {
                Some(c) => Some(c@),
                None => None,
            },
        ),
{
    proof {
        reveal_strlit("+");
        reveal_strlit("-");
        reveal_strlit(" ");
    }
    if origin == '+' {
        raw.append("+");
    } else if origin == '-' {
        raw.append("-");
    } else if origin == ' ' {
        raw.append(" ");
    }
    if let Some(c) = content {
        raw.append(c);
    }
    assert(raw@ =~= old(raw)@ + line_text(
        origin,
        match content {
            Some(c) => Some(c@),
            None => None,
        },
    ));
}

} // verus!
