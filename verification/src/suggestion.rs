//! The trail-suggestion command payload and the validation of its
//! link: a suggestion must point into AllTrails, explore links are
//! rewritten to plain trail links, and only Utah trails are accepted.

use vstd::prelude::*;

verus! {

/// Why a suggestion link was rejected.
#[derive(Clone, Copy, Debug, PartialEq, Eq, Structural)]
pub enum SuggestionError {
    /// The link does not point into AllTrails.
    NotAllTrails,
    /// The link points to a trail outside Utah.
    NotInUtah,
}

/// `p` is a prefix of `s`.
pub open spec fn starts_with_chars(s: Seq<char>, p: Seq<char>) -> bool {
    p.len() <= s.len() && s.subrange(0, p.len() as int) == p
}

/// Whether `s` starts with `p`, by characters.
fn str_starts_with(s: &str, p: &str) -> (r: bool)
    ensures
        r == starts_with_chars(s@, p@),
{
    let n = p.unicode_len();
    if n > s.unicode_len() {
        return false;
    }
    let mut i: usize = 0;
    while i < n
        invariant
            0 <= i <= n,
            n == p@.len(),
            n <= s@.len(),
            forall|j: int| 0 <= j < i ==> s@[j] == p@[j],
        decreases n - i,
    {
        if s.get_char(i) != p.get_char(i) {
            proof {
                assert(s@.subrange(0, n as int)[i as int] == s@[i as int]);
            }
            return false;
        }
        i = i + 1;
    }
    proof {
        assert(s@.subrange(0, n as int) =~= p@);
    }
    true
}

/// The explore-link rewrite: an explore link keeps its tail but gets
/// the plain site prefix back; any other link is left alone.
pub open spec fn normalized_link(link: Seq<char>) -> Seq<char> {
    if starts_with_chars(link, "https://www.alltrails.com/explore/"@) {
        "https://www.alltrails.com/"@ + link.subrange(
            "https://www.alltrails.com/explore/"@.len() as int,
            link.len() as int,
        )
    } else {
        link
    }
}

/// What link validation returns for each link: `NotAllTrails` off the
/// site, `NotInUtah` where the normalized link does not name a Utah
/// trail, else the normalized link.
pub open spec fn link_outcome(link: Seq<char>, r: Result<String, SuggestionError>) -> bool {
    if !starts_with_chars(link, "https://www.alltrails.com"@) {
        r == Err::<String, SuggestionError>(SuggestionError::NotAllTrails)
    } else if !starts_with_chars(normalized_link(link), "https://www.alltrails.com/trail/us/utah"@) {
        r == Err::<String, SuggestionError>(SuggestionError::NotInUtah)
    } else {
        match r {
            Ok(s) => s@ == normalized_link(link),
            Err(_) => false,
        }
    }
}

/// A trail suggestion as the chat command hands it over.
#[derive(Debug)]
pub struct SuggestionCommand {
    pub suggestion_link: String,
}

impl SuggestionCommand {
    /// Wraps a link for validation.
    pub fn from_link(suggestion_link: String) -> (c: SuggestionCommand)
        ensures
            c.suggestion_link@ == suggestion_link@,
    {
        SuggestionCommand { suggestion_link }
    }

    /// Validates the suggestion link: it must point into AllTrails, an
    /// explore link is rewritten to the plain trail link, and the
    /// result must name a trail in Utah.
    pub fn validated_link(&self) -> (r: Result<String, SuggestionError>)
        ensures
            link_outcome(self.suggestion_link@, r),
    {
        let link: &str = self.suggestion_link.as_str();
        if !str_starts_with(link, "https://www.alltrails.com") {
            return Err(SuggestionError::NotAllTrails);
        }
        let normalized: String = if str_starts_with(link, "https://www.alltrails.com/explore/") {
            let p: &str = "https://www.alltrails.com/explore/";
            let tail: &str = link.substring_char(p.unicode_len(), link.unicode_len());
            String::from_str("https://www.alltrails.com/").concat(tail)
        } else {
            String::from_str(link)
        };
        if !str_starts_with(normalized.as_str(), "https://www.alltrails.com/trail/us/utah") {
            return Err(SuggestionError::NotInUtah);
        }
        Ok(normalized)
    }
}

} // verus!
