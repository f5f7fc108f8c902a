//! Subscriber names and the record of a new subscriber.
//!
//! A name is made from untrusted text by [`SubscriberName::parse`], which
//! holds the text to three rules: it is not blank, it has at most
//! [`MAX_NAME_GRAPHEMES`] extended grapheme clusters, and none of its code
//! points is a forbidden character. Length is measured in clusters, the
//! characters that a reader sees; the forbidden characters are looked for
//! code point by code point.

use crate::forbidden::{contains_forbidden_char, has_forbidden_char, is_forbidden};
use crate::graphemes::{count_extended_graphemes, extended_grapheme_count};
use crate::whitespace::{
    all_white_space, blank, is_blank, is_white_space, lemma_blank_iff_all_white_space,
};
use vstd::prelude::*;
use vstd::string::StringExecFns;

verus! {

/// The most extended grapheme clusters that a name may have.
pub const MAX_NAME_GRAPHEMES: usize = 256;

/// The three rules for a name, on a text `s` that counts `graphemes` grapheme
/// clusters: it is not blank, it is not too long, and it holds no forbidden
/// character.
pub open spec fn meets_name_rules(s: Seq<char>, graphemes: nat) -> bool {
    &&& !is_blank(s)
    &&& graphemes <= MAX_NAME_GRAPHEMES
    &&& !has_forbidden_char(s)
}

/// Whether `s` is the text of a valid subscriber name.
pub open spec fn is_valid_name(s: Seq<char>) -> bool {
    meets_name_rules(s, extended_grapheme_count(s))
}

/// What a rejection says of the text `s` that was refused: the text itself,
/// then a fixed sentence.
pub open spec fn rejection_message(s: Seq<char>) -> Seq<char> {
    s + " is not a valid subscribe name."@
}

/// Decides whether the text `s`, which counts `graphemes` grapheme clusters,
/// meets the three rules for a name. The untrimmed text is measured and
/// scanned; trimming only serves to tell whether it is blank.
pub fn check_name_rules(s: &str, graphemes: usize) -> (ok: bool)
    ensures
        ok == meets_name_rules(s@, graphemes as nat),
{
    let is_empty_or_whitespace = blank(s);
    let is_too_long = graphemes > MAX_NAME_GRAPHEMES;
    let contains_forbidden_characters = contains_forbidden_char(s);
    !(is_empty_or_whitespace || is_too_long || contains_forbidden_characters)
}

/// `String::as_mut_str` of std. It lends out the whole text of `s`: the slice
/// starts as that text, and what the borrower leaves in it is the text of `s`
/// afterwards. Not proved: Verus takes this contract as given.
pub assume_specification[ String::as_mut_str ](s: &mut String) -> (text: &mut str)
    ensures
        text@ == old(s)@,
        final(s)@ == final(text)@,
;

/// The name of a subscriber. [`SubscriberName::parse`] is the only way to
/// make one, so a name is valid from the start; it stays valid unless its
/// text is changed through [`SubscriberName::inner_mut`].
#[derive(Debug)]
pub struct SubscriberName(String);

impl View for SubscriberName {
    type V = Seq<char>;

    /// The text of the name, code point by code point.
    closed spec fn view(&self) -> Seq<char> {
        self.0@
    }
}

impl AsRef<str> for SubscriberName {
    /// Reads the text of the name. The name is borrowed shared, so reading
    /// leaves it as it is, and every read returns the same text.
    fn as_ref(&self) -> (text: &str)
        ensures
            text@ == self@,
    {
        self.0.as_str()
    }
}

impl SubscriberName {
    /// Whether the name holds a text that meets the three rules.
    pub open spec fn is_valid(&self) -> bool {
        is_valid_name(self@)
    }

    /// Makes a name of `s` if `s` meets the three rules, and keeps the text as
    /// it came, untrimmed. Any other text is rejected with a message that
    /// echoes it, and the message does not tell which rule was broken.
    pub fn parse(s: String) -> (r: Result<SubscriberName, String>)
        ensures
            r is Ok <==> is_valid_name(s@),
            r matches Ok(name) ==> name@ == s@ && name.is_valid(),
            r matches Err(message) ==> message@ == rejection_message(s@),
    {
        let graphemes: usize = count_extended_graphemes(s.as_str());
        if check_name_rules(s.as_str(), graphemes) {
            Ok(SubscriberName(s))
        } else {
            Err(s.concat(" is not a valid subscribe name."))
        }
    }

    /// Takes the name apart and hands out its text. The name is moved into
    /// the call and is gone afterwards.
    pub fn inner(self) -> (text: String)
        ensures
            text@ == self@,
    {
        self.0
    }

    /// Lends out the text of the name for changes. Nothing holds the borrower
    /// to the three rules: the name holds whatever text is left when the
    /// borrow ends, and may then be invalid.
    pub fn inner_mut(&mut self) -> (text: &mut str)
        ensures
            text@ == old(self)@,
            final(self)@ == final(text)@,
    {
        self.0.as_mut_str()
    }
}

/// A subscriber who is about to be stored: an address and a name.
pub struct NewSubscriber {
    pub email: String,
    pub name: SubscriberName,
}

/// What holds of the text of every valid name: it has a code point that is
/// no white space, so it is not empty; it has no more extended grapheme
/// clusters than the limit; and none of its code points is forbidden.
pub proof fn lemma_valid_name(s: Seq<char>)
    requires
        is_valid_name(s),
    ensures
        exists|i: int| 0 <= i < s.len() && !is_white_space(#[trigger] s[i]),
        s.len() > 0,
        extended_grapheme_count(s) <= MAX_NAME_GRAPHEMES,
        forall|i: int| 0 <= i < s.len() ==> !is_forbidden(#[trigger] s[i]),
{
    lemma_blank_iff_all_white_space(s);
}

/// The texts that are never names: the empty text, a text of white space
/// only, a text with a forbidden code point, and a text that counts more
/// clusters than the limit.
pub proof fn lemma_rejected(s: Seq<char>, graphemes: nat)
    ensures
        s.len() == 0 ==> !meets_name_rules(s, graphemes),
        all_white_space(s) ==> !meets_name_rules(s, graphemes),
        forall|i: int|
            0 <= i < s.len() && is_forbidden(#[trigger] s[i]) ==> !meets_name_rules(s, graphemes),
        graphemes > MAX_NAME_GRAPHEMES ==> !meets_name_rules(s, graphemes),
{
    lemma_blank_iff_all_white_space(s);
}

/// Reading a name is repeatable: whatever two reads of one name return, it is
/// the same text both times, the text of the name.
pub proof fn lemma_reads_agree(name: SubscriberName, first: &str, second: &str)
    requires
        first@ == name@,
        second@ == name@,
    ensures
        first@ == second@,
{
}

/// What went in comes out: when `parse` accepts `s`, `inner` on the name that
/// it made gives back the text of `s`, code point for code point.
pub proof fn lemma_inner_returns_what_was_parsed(
    s: String,
    parsed: Result<SubscriberName, String>,
    text: String,
)
    requires
        call_ensures(SubscriberName::parse, (s,), parsed),
        parsed is Ok,
        call_ensures(SubscriberName::inner, (parsed->Ok_0,), text),
    ensures
        text@ == s@,
{
}

} // verus!
