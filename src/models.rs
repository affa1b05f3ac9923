use vstd::prelude::*;
use vstd::string::StringExecFns;

verus! {

/// A code fragment within a snippet: one file's content, its language and
/// its position in the snippet.
pub struct Fragment {
    pub id: u64,
    pub file_name: String,
    pub code: String,
    pub language: String,
    pub position: u64,
}

/// A titled bundle of fragments with its metadata. `updated_at` and
/// `share_count` are assigned by the server.
pub struct Snippet {
    pub id: u64,
    pub title: String,
    pub description: String,
    pub categories: Vec<String>,
    pub fragments: Vec<Fragment>,
    pub updated_at: String,
    pub share_count: u64,
}

/// The strings of `parts` with `,` between each two.
pub open spec fn comma_joined(parts: Seq<Seq<char>>) -> Seq<char>
    decreases parts.len(),
{
    if parts.len() == 0 {
        Seq::empty()
    } else if parts.len() == 1 {
        parts[0]
    } else {
        comma_joined(parts.drop_last()) + ","@ + parts.last()
    }
}

impl Snippet {
    pub open spec fn category_view(&self) -> Seq<Seq<char>> {
        self.categories@.map_values(|c: String| c@)
    }

    /// The categories as one comma-separated string, the form in which they
    /// are uploaded.
    pub fn categories_joined(&self) -> (r: String)
        ensures
            r@ == comma_joined(self.category_view()),
    {
        let n = self.categories.len();
        if n == 0 {
            return String::new();
        }
        let mut r = self.categories[0].clone();
        let mut i: usize = 1;
        assert(self.category_view().subrange(0, 1) =~= seq![self.categories[0]@]);
        while i < n
            invariant
                1 <= i <= n,
                n == self.categories.len(),
                r@ == comma_joined(self.category_view().subrange(0, i as int)),
            decreases n - i,
        {
            r.append(",");
            r.append(self.categories[i].as_str());
            assert(self.category_view().subrange(0, i + 1).drop_last() =~= self.category_view().subrange(0, i as int));
            i = i + 1;
        }
        assert(self.category_view().subrange(0, n as int) =~= self.category_view());
        r
    }
}

} // verus!
