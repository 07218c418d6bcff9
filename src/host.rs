//! The two strings that the hosting page supplies (its user agent and its
//! document domain), each read at most once and kept for the life of the
//! process.
//!
//! A [`OnceText`] is the cell that holds one of them. The host hands its
//! answer over as UTF-16 code units; the first answer is decoded and kept,
//! and every later one is ignored. Whoever owns the cell asks the host only
//! while [`OnceText::is_set`] is false, so the host is asked once.

use vstd::prelude::*;

use crate::agent::{device_label, distro_of, platform_of};

verus! {

/// What `String::from_utf16_lossy` makes of a sequence of UTF-16 code units.
pub uninterp spec fn utf16_lossy(units: Seq<u16>) -> Seq<char>;

/// Relies on `String::from_utf16_lossy`: the result is a function of the
/// code units alone, and no units decode to the empty string.
#[verifier::external_body]
fn decode_utf16_lossy(units: &[u16]) -> (r: String)
    ensures
        r@ == utf16_lossy(units@),
        units@.len() == 0 ==> r@.len() == 0,
{
    String::from_utf16_lossy(units)
}

/// The text a cell holds after it is offered `units`: what it already held,
/// or else the decoded units.
pub open spec fn settled(held: Option<Seq<char>>, units: Seq<u16>) -> Seq<char> {
    match held {
        Some(t) => t,
        None => utf16_lossy(units),
    }
}

/// What a cell holds after it is offered each of `answers` in turn.
pub open spec fn settle_all(held: Option<Seq<char>>, answers: Seq<Seq<u16>>) -> Option<Seq<char>>
    decreases answers.len(),
{
    if answers.len() == 0 {
        held
    } else {
        settle_all(Some(settled(held, answers[0])), answers.drop_first())
    }
}

/// A text that is set once and never changes afterwards.
pub struct OnceText {
    value: Option<String>,
}

impl View for OnceText {
    type V = Option<Seq<char>>;

    closed spec fn view(&self) -> Option<Seq<char>> {
        match self.value {
            Some(s) => Some(s@),
            None => None,
        }
    }
}

impl OnceText {
    /// An empty cell.
    pub fn new() -> (r: OnceText)
        ensures
            r@ is None,
    {
        OnceText { value: None }
    }

    /// Whether the cell holds its text.
    pub fn is_set(&self) -> (r: bool)
        ensures
            r == self@ is Some,
    {
        self.value.is_some()
    }

    /// The text held, if any.
    pub fn get(&self) -> (r: Option<String>)
        ensures
            r.deep_view() == self@,
    {
        match &self.value {
            Some(s) => Some(s.clone()),
            None => None,
        }
    }

    /// Offers the host's answer: an empty cell keeps it, decoded; a set
    /// cell stays as it is. Returns the text the cell now holds.
    pub fn settle(&mut self, units: &[u16]) -> (r: String)
        ensures
            r@ == settled(old(self)@, units@),
            final(self)@ == Some(r@),
            old(self)@ is Some ==> final(self)@ == old(self)@,
    {
        match &self.value {
            Some(s) => s.clone(),
            None => {
                let text = decode_utf16_lossy(units);
                self.value = Some(text.clone());
                text
            },
        }
    }
}

/// The two host strings of one process.
pub struct HostCache {
    pub user_agent: OnceText,
    pub document_domain: OnceText,
}

impl HostCache {
    /// A cache that holds neither string yet.
    pub fn new() -> (r: HostCache)
        ensures
            r.user_agent@ is None,
            r.document_domain@ is None,
    {
        HostCache { user_agent: OnceText::new(), document_domain: OnceText::new() }
    }
}

/// Reading a host string twice gives the same text, whatever the host would
/// answer the second time, so every query made on it gives the same result
/// both times.
pub proof fn lemma_reads_repeat(held: Option<Seq<char>>, first: Seq<u16>, second: Seq<u16>)
    ensures
        settled(Some(settled(held, first)), second) == settled(held, first),
        device_label(settled(Some(settled(held, first)), second)) == device_label(
            settled(held, first),
        ),
        distro_of(settled(Some(settled(held, first)), second)) == distro_of(
            settled(held, first),
        ),
        platform_of(settled(Some(settled(held, first)), second)) == platform_of(
            settled(held, first),
        ),
{
}

/// However many answers an empty cell is offered, it ends up holding the
/// first one, decoded: the later answers change nothing.
pub proof fn lemma_first_answer_kept(answers: Seq<Seq<u16>>)
    requires
        answers.len() > 0,
    ensures
        settle_all(None, answers) == Some(utf16_lossy(answers[0])),
{
    lemma_set_cell_unchanged(utf16_lossy(answers[0]), answers.drop_first());
}

/// A cell that holds a text keeps it, whatever it is offered.
pub proof fn lemma_set_cell_unchanged(text: Seq<char>, answers: Seq<Seq<u16>>)
    ensures
        settle_all(Some(text), answers) == Some(text),
    decreases answers.len(),
{
    if answers.len() > 0 {
        lemma_set_cell_unchanged(text, answers.drop_first());
    }
}

} // verus!
