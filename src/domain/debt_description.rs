use unicode_segmentation::UnicodeSegmentation;
use vstd::prelude::*;

verus! {

/// The most grapheme clusters that a description may hold.
pub const MAX_DESCRIPTION_GRAPHEMES: usize = 256;

/// The number of extended grapheme clusters in a text.
pub uninterp spec fn grapheme_count(s: Seq<char>) -> nat;

/// Relies on `UnicodeSegmentation::graphemes` (extended clusters): the count
/// depends on the characters alone.
#[verifier::external_body]
fn count_graphemes(s: &str) -> (r: usize)
    ensures
        r as nat == grapheme_count(s@),
{
    s.graphemes(true).count()
}

/// The message that rejects `s` as a description.
pub open spec fn description_too_long_message(s: Seq<char>) -> Seq<char> {
    s + " is too long for a description"@
}

/// A free-text description of a debt: at most `MAX_DESCRIPTION_GRAPHEMES`
/// grapheme clusters.
#[derive(Debug, Clone, PartialEq, Eq)]
pub struct DebtDescription(String);

impl DebtDescription {
    /// The text of a description.
    pub closed spec fn text(self) -> Seq<char> {
        self.0@
    }

    /// The text of this description.
    pub fn as_str(&self) -> (r: &str)
        ensures
            r@ == self.text(),
    {
        self.0.as_str()
    }

    /// Accepts `s` as a description, given the number of its grapheme
    /// clusters.
    pub fn with_grapheme_count(s: String, graphemes: usize) -> (r: Result<DebtDescription, String>)
        ensures
            graphemes <= MAX_DESCRIPTION_GRAPHEMES ==> (r matches Ok(d) && d.text() == s@),
            graphemes > MAX_DESCRIPTION_GRAPHEMES ==> (r matches Err(e) && e@
                == description_too_long_message(s@)),
    {
        if graphemes > MAX_DESCRIPTION_GRAPHEMES {
            Err(s.concat(" is too long for a description"))
        } else {
            Ok(DebtDescription(s))
        }
    }

    /// Accepts `s` as a description if it holds at most
    /// `MAX_DESCRIPTION_GRAPHEMES` grapheme clusters.
    pub fn parse(s: String) -> (r: Result<DebtDescription, String>)
        ensures
            grapheme_count(s@) <= MAX_DESCRIPTION_GRAPHEMES ==> (r matches Ok(d) && d.text() == s@),
            grapheme_count(s@) > MAX_DESCRIPTION_GRAPHEMES ==> (r matches Err(e) && e@
                == description_too_long_message(s@)),
    {
        let graphemes = count_graphemes(s.as_str());
        DebtDescription::with_grapheme_count(s, graphemes)
    }
}

} // verus!
