//! What the window host decides when it carries out a command: which part of
//! an address names a page of the application, and what it answers where a
//! surface is missing or an operation on it fails.

use vstd::prelude::*;
use vstd::string::*;

verus! {

/// How many slashes `s` holds.
pub open spec fn slashes(s: Seq<char>) -> nat
    decreases s.len(),
{
    if s.len() == 0 {
        0
    } else {
        slashes(s.drop_last()) + if s.last() == '/' {
            1nat
        } else {
            0nat
        }
    }
}

/// Whether the third slash of `s` stands at `i`.
pub open spec fn third_slash(s: Seq<char>, i: int) -> bool {
    &&& 0 <= i < s.len()
    &&& s[i] == '/'
    &&& slashes(s.take(i)) == 2
}

/// A part of a text holds no more slashes than the text.
pub proof fn lemma_slashes_take(s: Seq<char>, i: int)
    requires
        0 <= i <= s.len(),
    ensures
        slashes(s.take(i)) <= slashes(s),
    decreases s.len(),
{
    if i < s.len() {
        assert(s.drop_last().take(i) =~= s.take(i));
        lemma_slashes_take(s.drop_last(), i);
    } else {
        assert(s.take(i) =~= s);
    }
}

/// A text has its third slash at one place only.
pub proof fn lemma_third_slash_unique(s: Seq<char>, i: int, j: int)
    requires
        third_slash(s, i),
        third_slash(s, j),
    ensures
        i == j,
{
    if i < j {
        assert(s.take(j).take(i + 1) =~= s.take(i + 1));
        assert(s.take(i + 1).drop_last() =~= s.take(i));
        lemma_slashes_take(s.take(j), i + 1);
    } else if j < i {
        assert(s.take(i).take(j + 1) =~= s.take(j + 1));
        assert(s.take(j + 1).drop_last() =~= s.take(j));
        lemma_slashes_take(s.take(i), j + 1);
    }
}

/// What is answered for an address without a third slash.
pub open spec fn three_slashes_expected(url: Seq<char>) -> Seq<char> {
    "Expected three slashes url: "@ + url
}

/// The page of the application that `url` names: what follows its third
/// slash, which ends the scheme and the host. An address with fewer than
/// three slashes names none, and is answered with a message that shows it.
pub fn app_path(url: &str) -> (path: Result<String, String>)
    ensures
        path is Ok <==> slashes(url@) >= 3,
        match path {
            Ok(p) => exists|i: int| third_slash(url@, i) && p@ == url@.skip(i + 1),
            Err(message) => message@ == three_slashes_expected(url@),
        },
{
    let len = url.unicode_len();
    let mut seen: u8 = 0;
    let mut i: usize = 0;
    while i < len
        invariant
            0 <= i <= len,
            len == url@.len(),
            seen as nat == slashes(url@.take(i as int)),
            seen <= 2,
        decreases len - i,
    {
        proof {
            assert(url@.take(i + 1).drop_last() =~= url@.take(i as int));
        }
        if url.get_char(i) == '/' {
            if seen == 2 {
                proof {
                    assert(third_slash(url@, i as int));
                    lemma_slashes_take(url@, i + 1);
                    assert(url@.skip(i + 1) =~= url@.subrange(i + 1, len as int));
                }
                return Ok(String::from_str(url.substring_char(i + 1, len)));
            }
            seen += 1;
        }
        i += 1;
    }
    assert(url@.take(len as int) =~= url@);
    let mut message = String::from_str("Expected three slashes url: ");
    message.append(url);
    Err(message)
}

/// What is answered where no surface has the label `label`.
pub open spec fn missing_window(label: Seq<char>) -> Seq<char> {
    "Could not get window "@ + label
}

/// Applies `f` to the surface labelled `label`, where the host has one, and
/// gives its answer; where it has none, answers with a message that names
/// the label.
pub fn window_apply<W, F: FnOnce(W) -> Result<bool, String>>(
    window: Option<W>,
    label: &str,
    f: F,
) -> (answer: Result<bool, String>)
    requires
        window matches Some(w) ==> call_requires(f, (w,)),
    ensures
        match window {
            Some(w) => call_ensures(f, (w,), answer),
            None => answer matches Err(message) && message@ == missing_window(label@),
        },
{
    match window {
        Some(w) => f(w),
        None => {
            let mut message = String::from_str("Could not get window ");
            message.append(label);
            Err(message)
        },
    }
}

/// What is answered where the surface `label` could not be given the title
/// `title`, for the reason that `detail` shows.
pub open spec fn title_failure(label: Seq<char>, title: Seq<char>, detail: Seq<char>) -> Seq<
    char,
> {
    "Could not set window "@ + label + " title to "@ + title + ": "@ + detail
}

/// Builds the answer for a title that could not be set.
pub fn set_title_failure(label: &str, title: &str, detail: &str) -> (message: String)
    ensures
        message@ == title_failure(label@, title@, detail@),
{
    let mut message = String::from_str("Could not set window ");
    message.append(label);
    message.append(" title to ");
    message.append(title);
    message.append(": ");
    message.append(detail);
    message
}

/// What is answered where the surface `label` could not be closed, for the
/// reason that `detail` shows.
pub open spec fn close_failure(label: Seq<char>, detail: Seq<char>) -> Seq<char> {
    "Could not close window "@ + label + ": "@ + detail
}

/// Builds the answer for a surface that could not be closed.
pub fn close_window_failure(label: &str, detail: &str) -> (message: String)
    ensures
        message@ == close_failure(label@, detail@),
{
    let mut message = String::from_str("Could not close window ");
    message.append(label);
    message.append(": ");
    message.append(detail);
    message
}

} // verus!
