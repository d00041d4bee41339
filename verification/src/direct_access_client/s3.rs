//! Listing the objects of an S3 bucket page by page.
use vstd::prelude::*;

verus! {

/// The key of a listed object; an object without a key reads as the empty text.
pub open spec fn listed_key(k: Option<String>) -> Seq<char> {
    match k {
        Some(s) => s@,
        None => Seq::empty(),
    }
}

/// Progress of a paginated object listing.
#[derive(Debug)]
pub struct ObjectListing {
    /// Keys collected so far, in listing order.
    pub keys: Vec<String>,
    /// The token that asks for the next page.
    pub continuation_token: Option<String>,
    /// Whether the last page was reached.
    pub done: bool,
}

impl ObjectListing {
    /// A listing that has read no page yet.
    pub fn new() -> (r: Self)
        ensures
            r.keys@.len() == 0,
            r.continuation_token is None,
            !r.done,
    {
        ObjectListing { keys: Vec::new(), continuation_token: None, done: false }
    }

    /// Adds the keys of one page, in order, and decides whether to go on:
    /// only a page that says it is truncated is followed by another, which is
    /// asked for with the page's continuation token.
    pub fn add_page(&mut self, page_keys: Vec<Option<String>>, is_truncated: Option<bool>, next_token: Option<String>)
        ensures
            final(self).keys@.len() == old(self).keys@.len() + page_keys@.len(),
            forall|i: int| 0 <= i < old(self).keys@.len() ==> #[trigger] final(self).keys@[i] == old(self).keys@[i],
            forall|i: int|
                0 <= i < page_keys@.len() ==> (#[trigger] final(self).keys@[old(self).keys@.len() + i])@
                    == listed_key(page_keys@[i]),
            final(self).done == (is_truncated != Some(true)),
            is_truncated == Some(true) ==> final(self).continuation_token == next_token,
            is_truncated != Some(true) ==> final(self).continuation_token == old(self).continuation_token,
    {
        let n = page_keys.len();
        let ghost start = self.keys@.len();
        let mut i: usize = 0;
        while i < n
            invariant
                n == page_keys@.len(),
                i <= n,
                self.keys@.len() == start + i,
                start == old(self).keys@.len(),
                forall|j: int| 0 <= j < start ==> #[trigger] self.keys@[j] == old(self).keys@[j],
                forall|j: int| 0 <= j < i ==> (#[trigger] self.keys@[start + j])@ == listed_key(page_keys@[j]),
                self.continuation_token == old(self).continuation_token,
            decreases n - i,
        {
            let key = match &page_keys[i] {
                Some(k) => k.clone(),
                None => String::new(),
            };
            self.keys.push(key);
            i = i + 1;
        }
        match is_truncated {
            Some(true) => {
                self.continuation_token = next_token;
                self.done = false;
            },
            _ => {
                self.done = true;
            },
        }
    }
}

} // verus!
