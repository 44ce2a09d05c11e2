use vstd::prelude::*;

verus! {

/// The numbered list of servers that the window shows.
pub struct NumberedListDelegate {
    pub items: Vec<String>,
    pub is_loading: bool,
}

impl NumberedListDelegate {
    /// The number of rows.
    pub fn items_count(&self) -> (r: usize)
        ensures
            r == self.items@.len(),
    {
        self.items.len()
    }

    /// Whether the list shows its loading indicator.
    pub fn loading(&self) -> (r: bool)
        ensures
            r == self.is_loading,
    {
        self.is_loading
    }

    /// The server of row `row`, where there is one.
    pub fn item(&self, row: usize) -> (r: Option<&String>)
        ensures
            row < self.items@.len() ==> r == Some(&self.items@[row as int]),
            row >= self.items@.len() ==> r is None,
    {
        if row < self.items.len() {
            Some(&self.items[row])
        } else {
            None
        }
    }
}

} // verus!
