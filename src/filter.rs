//! The current filter: an optional pattern that always compiles.
use vstd::prelude::*;
use vstd::string::*;

verus! {

/// Whether `regex::Regex::new` accepts a pattern.
pub uninterp spec fn regex_valid(pattern: Seq<char>) -> bool;

/// What `is_match` answers for a line, on the regex compiled from a pattern.
pub uninterp spec fn regex_matches(pattern: Seq<char>, line: Seq<char>) -> bool;

/// Relies on `regex::Regex::new`: whether it compiles a pattern depends on
/// the pattern alone.
#[verifier::external_body]
fn regex_compiles(pattern: &str) -> (r: bool)
    ensures
        r == regex_valid(pattern@),
{
    regex::Regex::new(pattern).is_ok()
}

/// Relies on `regex::Regex::new` and `regex::Regex::is_match`: a pattern that
/// compiles gives a regex whose answer depends on the pattern and the line.
#[verifier::external_body]
fn regex_is_match(pattern: &str, line: &str) -> (r: Option<bool>)
    ensures
        r == (if regex_valid(pattern@) {
            Some(regex_matches(pattern@, line@))
        } else {
            None::<bool>
        }),
{
    regex::Regex::new(pattern).ok().map(|re| re.is_match(line))
}

/// The text a filter query answers when no filter is set.
pub open spec fn no_filter_text() -> Seq<char> {
    "<no current filter>"@
}

/// The view of an optional string.
pub open spec fn opt_view(s: Option<String>) -> Option<Seq<char>> {
    match s {
        Some(s) => Some(s@),
        None => None,
    }
}

/// A filter model is sound when its pattern, if any, compiles.
pub open spec fn filter_sound(f: Option<Seq<char>>) -> bool {
    match f {
        Some(p) => regex_valid(p),
        None => true,
    }
}

/// The filter after a request to set it: cleared by `None`, replaced by a
/// pattern that compiles, kept as it was otherwise.
pub open spec fn filter_after_set(f: Option<Seq<char>>, request: Option<Seq<char>>) -> Option<
    Seq<char>,
> {
    match request {
        None => None,
        Some(p) => if regex_valid(p) {
            Some(p)
        } else {
            f
        },
    }
}

/// Whether a filter selects a line: never when no filter is set.
pub open spec fn filter_selects(f: Option<Seq<char>>, line: Seq<char>) -> bool {
    match f {
        Some(p) => regex_matches(p, line),
        None => false,
    }
}

/// What a filter query answers: the pattern, or the sentinel text.
pub open spec fn filter_text(f: Option<Seq<char>>) -> Seq<char> {
    match f {
        Some(p) => p,
        None => no_filter_text(),
    }
}

/// The current filter. Its pattern is only ever replaced by one that compiles.
pub struct Filter {
    pattern: Option<String>,
}

impl View for Filter {
    type V = Option<Seq<char>>;

    closed spec fn view(&self) -> Option<Seq<char>> {
        opt_view(self.pattern)
    }
}

impl Filter {
    pub open spec fn wf(&self) -> bool {
        filter_sound(self@)
    }

    /// A filter with no pattern.
    pub fn empty() -> (r: Filter)
        ensures
            r.wf(),
            r@ == None::<Seq<char>>,
    {
        Filter { pattern: None }
    }

    /// The filter at startup: the initial pattern if it compiles, else none.
    pub fn new(initial: Option<String>) -> (r: Filter)
        ensures
            r.wf(),
            r@ == filter_after_set(None, opt_view(initial)),
    {
        let mut f = Filter::empty();
        f.set(initial);
        f
    }

    /// Sets or clears the pattern. A pattern that does not compile leaves the
    /// filter as it was; the result tells whether the request was taken.
    pub fn set(&mut self, request: Option<String>) -> (accepted: bool)
        requires
            old(self).wf(),
        ensures
            final(self).wf(),
            final(self)@ == filter_after_set(old(self)@, opt_view(request)),
            accepted == (match opt_view(request) {
                Some(p) => regex_valid(p),
                None => true,
            }),
    {
        match request {
            None => {
                self.pattern = None;
                true
            },
            Some(p) => {
                if regex_compiles(p.as_str()) {
                    self.pattern = Some(p);
                    true
                } else {
                    false
                }
            },
        }
    }

    /// Whether the filter selects a line.
    pub fn matches(&self, line: &str) -> (r: bool)
        requires
            self.wf(),
        ensures
            r == filter_selects(self@, line@),
    {
        match &self.pattern {
            None => false,
            Some(p) => match regex_is_match(p.as_str(), line) {
                Some(m) => m,
                None => false,
            },
        }
    }

    /// The answer to a filter query.
    pub fn current(&self) -> (r: String)
        ensures
            r@ == filter_text(self@),
    {
        match &self.pattern {
            Some(p) => p.clone(),
            None => String::from_str("<no current filter>"),
        }
    }
}

} // verus!
