//! Hotline news articles.

use vstd::prelude::*;
use crate::datetime::HLDateTime;

verus! {

/// A single Hotline news article post.
#[derive(Clone, Debug)]
pub struct HLNewsArticle {
    pub id: u32,
    pub timestamp: HLDateTime,
    pub parent_id: u32,
    pub title: Vec<u8>,
    pub poster: Vec<u8>,
    pub flavors: Option<Vec<Vec<u8>>>,
}

impl HLNewsArticle {
    /// Resolves an article's parent ID: the stored parent ID when `list`
    /// holds an article with it, and 0 when no such article exists.
    pub fn resolve_parent(&self, list: &[HLNewsArticle]) -> (r: u32)
        ensures
            (exists|k: int| 0 <= k < list@.len() && (#[trigger] list@[k]).id == self.parent_id)
                ==> r == self.parent_id,
            !(exists|k: int| 0 <= k < list@.len() && (#[trigger] list@[k]).id == self.parent_id)
                ==> r == 0,
    {
        let mut i: usize = 0;
        while i < list.len()
            invariant
                i <= list@.len(),
                forall|k: int| 0 <= k < i ==> (#[trigger] list@[k]).id != self.parent_id,
            decreases list@.len() - i,
        {
            if list[i].id == self.parent_id {
                return self.parent_id;
            }
            i = i + 1;
        }
        0
    }
}

} // verus!
