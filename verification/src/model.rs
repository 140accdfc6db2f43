//! List model: the ordered articles, the selection cursor over them plus
//! one synthetic trailing "visit website" slot, the set of expanded
//! indices, and the loading status. All transitions are total: they never
//! fail and silently do nothing on an empty list.

use crate::article::Article;
use std::collections::HashSet;
use vstd::prelude::*;

verus! {

broadcast use vstd::std_specs::hash::group_hash_axioms;

/// Outcome of the most recent fetch, governing which view is rendered.
#[derive(Debug, Clone, PartialEq)]
pub enum LoadingState {
    Loading,
    Loaded,
    Error(String),
}

/// The interactive list state. `selected` ranges over `[0, articles.len()]`:
/// the index `articles.len()` is the synthetic trailing row that links to
/// the website. `expanded` holds the article indices whose detail block is
/// shown; the trailing row is never a member.
pub struct App {
    pub articles: Vec<Article>,
    pub selected: Option<usize>,
    pub expanded: HashSet<usize>,
    pub loading_state: LoadingState,
    pub base_url: String,
    pub limit: u32,
    pub should_quit: bool,
    pub last_error: Option<String>,
    pub needs_refresh: bool,
}

/// Selection after one step forward: wraps from the trailing row to 0.
pub open spec fn next_sel(i: int, n: int) -> int {
    if i >= n {
        0
    } else {
        i + 1
    }
}

/// Selection after one step backward: wraps from 0 to the trailing row.
pub open spec fn prev_sel(i: int, n: int) -> int {
    if i == 0 {
        n
    } else {
        i - 1
    }
}

/// Selection after a page down: ten rows forward, clamped to the trailing row.
pub open spec fn page_down_sel(i: int, n: int) -> int {
    if i + 10 <= n {
        i + 10
    } else {
        n
    }
}

/// Selection after a page up: ten rows backward, saturating at 0.
pub open spec fn page_up_sel(i: int) -> int {
    if i >= 10 {
        i - 10
    } else {
        0
    }
}

/// Membership of `i` flipped.
pub open spec fn toggle_set(e: Set<usize>, i: usize) -> Set<usize> {
    if e.contains(i) {
        e.remove(i)
    } else {
        e.insert(i)
    }
}

impl App {
    /// Selection invariant: a non-empty list always has a selection within
    /// `[0, articles.len()]`; an empty list has none.
    pub open spec fn wf(self) -> bool {
        &&& (self.articles.len() > 0 ==> self.selected is Some)
        &&& (self.articles.len() == 0 ==> self.selected is None)
        &&& (self.selected is Some ==> self.selected.unwrap() <= self.articles.len())
    }

    /// The selection as an integer; meaningful only when `selected` is set.
    pub open spec fn sel(self) -> int {
        self.selected.unwrap() as int
    }

    /// Number of loaded articles.
    pub open spec fn n(self) -> int {
        self.articles.len() as int
    }
}

/// All fields equal except possibly the selection.
pub open spec fn nav_frame(pre: App, post: App) -> bool {
    &&& post.articles == pre.articles
    &&& post.expanded == pre.expanded
    &&& post.loading_state == pre.loading_state
    &&& post.base_url == pre.base_url
    &&& post.limit == pre.limit
    &&& post.should_quit == pre.should_quit
    &&& post.last_error == pre.last_error
    &&& post.needs_refresh == pre.needs_refresh
}

/// All fields equal except possibly the expanded set.
pub open spec fn expand_frame(pre: App, post: App) -> bool {
    &&& post.articles == pre.articles
    &&& post.selected == pre.selected
    &&& post.loading_state == pre.loading_state
    &&& post.base_url == pre.base_url
    &&& post.limit == pre.limit
    &&& post.should_quit == pre.should_quit
    &&& post.last_error == pre.last_error
    &&& post.needs_refresh == pre.needs_refresh
}

/// Trailing slashes removed from a URL, so that paths can be appended.
pub open spec fn trim_trailing_slashes(s: Seq<char>) -> Seq<char>
    decreases s.len(),
{
    if s.len() > 0 && s.last() == '/' {
        trim_trailing_slashes(s.drop_last())
    } else {
        s
    }
}

proof fn lemma_trim_take(s: Seq<char>, k: int)
    requires
        0 <= k <= s.len(),
        forall|m: int| k <= m < s.len() ==> s[m] == '/',
        k > 0 ==> s[k - 1] != '/',
    ensures
        trim_trailing_slashes(s) == s.take(k),
    decreases s.len(),
{
    if k == s.len() {
        if s.len() > 0 {
            assert(s.last() == s[k - 1]);
        }
        assert(s.take(k) =~= s);
    } else {
        assert(s.last() == '/');
        lemma_trim_take(s.drop_last(), k);
        assert(s.drop_last().take(k) =~= s.take(k));
    }
}

fn trim_base_url(s: &str) -> (r: String)
    ensures
        r@ == trim_trailing_slashes(s@),
{
    let n = s.unicode_len();
    let mut k: usize = n;
    loop
        invariant
            0 <= k <= n == s@.len(),
            forall|m: int| k <= m < n ==> s@[m] == '/',
        ensures
            0 <= k <= n,
            forall|m: int| k <= m < n ==> s@[m] == '/',
            k > 0 ==> s@[k - 1] != '/',
        decreases k,
    {
        if k == 0 {
            break ;
        }
        if s.get_char(k - 1) != '/' {
            break ;
        }
        k = k - 1;
    }
    proof {
        lemma_trim_take(s@, k as int);
    }
    String::from_str(s.substring_char(0, k))
}

impl App {
    /// A fresh model: no articles, no selection, nothing expanded, loading.
    /// The base URL keeps everything but its trailing slashes.
    pub fn new(api_url: &str, limit: u32) -> (r: App)
        ensures
            r.wf(),
            r.articles.len() == 0,
            r.selected is None,
            r.expanded@ == Set::<usize>::empty(),
            r.loading_state == LoadingState::Loading,
            r.base_url@ == trim_trailing_slashes(api_url@),
            r.limit == limit,
            !r.should_quit,
            r.last_error is None,
            !r.needs_refresh,
    {
        App {
            articles: Vec::new(),
            selected: None,
            expanded: HashSet::new(),
            loading_state: LoadingState::Loading,
            base_url: trim_base_url(api_url),
            limit,
            should_quit: false,
            last_error: None,
            needs_refresh: false,
        }
    }

    /// Record that a fetch is in flight, so the view shows the placeholder.
    pub fn begin_loading(&mut self)
        requires
            old(self).wf(),
        ensures
            final(self).wf(),
            final(self).loading_state == LoadingState::Loading,
            final(self).articles == old(self).articles,
            final(self).selected == old(self).selected,
            final(self).expanded == old(self).expanded,
            final(self).base_url == old(self).base_url,
            final(self).limit == old(self).limit,
            final(self).should_quit == old(self).should_quit,
            final(self).last_error == old(self).last_error,
            final(self).needs_refresh == old(self).needs_refresh,
    {
        self.loading_state = LoadingState::Loading;
    }

    /// Apply the outcome of a fetch. Success replaces the articles, marks
    /// the model loaded and resets the selection (first row, or none when
    /// the page is empty) — the one point that re-validates the selection
    /// after the list shrinks. Failure records the message and leaves the
    /// articles and the selection as they were.
    pub fn load(&mut self, result: Result<Vec<Article>, String>)
        requires
            old(self).wf(),
        ensures
            final(self).wf(),
            final(self).expanded == old(self).expanded,
            final(self).base_url == old(self).base_url,
            final(self).limit == old(self).limit,
            final(self).should_quit == old(self).should_quit,
            final(self).last_error == old(self).last_error,
            final(self).needs_refresh == old(self).needs_refresh,
            match result {
                Ok(items) => {
                    &&& final(self).articles == items
                    &&& final(self).loading_state == LoadingState::Loaded
                    &&& final(self).selected == (if items.len() > 0 {
                        Some(0usize)
                    } else {
                        None::<usize>
                    })
                },
                Err(msg) => {
                    &&& final(self).articles == old(self).articles
                    &&& final(self).selected == old(self).selected
                    &&& final(self).loading_state == LoadingState::Error(msg)
                },
            },
    {
        match result {
            Ok(items) => {
                self.articles = items;
                self.loading_state = LoadingState::Loaded;
                if self.articles.len() > 0 {
                    self.selected = Some(0);
                } else {
                    self.selected = None;
                }
            },
            Err(msg) => {
                self.loading_state = LoadingState::Error(msg);
            },
        }
    }

    /// An explicit refresh: collapse every expanded item, then apply the
    /// fetch outcome as `load` does.
    pub fn refresh(&mut self, result: Result<Vec<Article>, String>)
        requires
            old(self).wf(),
        ensures
            final(self).wf(),
            final(self).expanded@ == Set::<usize>::empty(),
            final(self).base_url == old(self).base_url,
            final(self).limit == old(self).limit,
            final(self).should_quit == old(self).should_quit,
            final(self).last_error == old(self).last_error,
            final(self).needs_refresh == old(self).needs_refresh,
            match result {
                Ok(items) => {
                    &&& final(self).articles == items
                    &&& final(self).loading_state == LoadingState::Loaded
                    &&& final(self).selected == (if items.len() > 0 {
                        Some(0usize)
                    } else {
                        None::<usize>
                    })
                },
                Err(msg) => {
                    &&& final(self).articles == old(self).articles
                    &&& final(self).selected == old(self).selected
                    &&& final(self).loading_state == LoadingState::Error(msg)
                },
            },
    {
        self.expanded.clear();
        self.load(result);
    }

    /// Move the selection one row forward, wrapping past the trailing row.
    /// Does nothing on an empty list.
    pub fn next(&mut self)
        requires
            old(self).wf(),
        ensures
            final(self).wf(),
            nav_frame(*old(self), *final(self)),
            old(self).n() == 0 ==> final(self).selected == old(self).selected,
            old(self).n() > 0 ==> final(self).selected == Some(
                next_sel(old(self).sel(), old(self).n()) as usize,
            ),
    {
        if self.articles.len() == 0 {
            return ;
        }
        let i = match self.selected {
            Some(i) => {
                if i >= self.articles.len() {
                    0
                } else {
                    i + 1
                }
            },
            None => 0,
        };
        self.selected = Some(i);
    }

    /// Move the selection one row backward, wrapping from 0 to the trailing
    /// row. Does nothing on an empty list.
    pub fn previous(&mut self)
        requires
            old(self).wf(),
        ensures
            final(self).wf(),
            nav_frame(*old(self), *final(self)),
            old(self).n() == 0 ==> final(self).selected == old(self).selected,
            old(self).n() > 0 ==> final(self).selected == Some(
                prev_sel(old(self).sel(), old(self).n()) as usize,
            ),
    {
        if self.articles.len() == 0 {
            return ;
        }
        let i = match self.selected {
            Some(i) => {
                if i == 0 {
                    self.articles.len()
                } else {
                    i - 1
                }
            },
            None => 0,
        };
        self.selected = Some(i);
    }

    /// Jump to the first row. Does nothing on an empty list.
    pub fn go_to_first(&mut self)
        requires
            old(self).wf(),
        ensures
            final(self).wf(),
            nav_frame(*old(self), *final(self)),
            old(self).n() == 0 ==> final(self).selected == old(self).selected,
            old(self).n() > 0 ==> final(self).selected == Some(0usize),
    {
        if self.articles.len() > 0 {
            self.selected = Some(0);
        }
    }

    /// Jump to the trailing row. Does nothing on an empty list.
    pub fn go_to_last(&mut self)
        requires
            old(self).wf(),
        ensures
            final(self).wf(),
            nav_frame(*old(self), *final(self)),
            old(self).n() == 0 ==> final(self).selected == old(self).selected,
            old(self).n() > 0 ==> final(self).selected == Some(old(self).articles.len()),
    {
        if self.articles.len() > 0 {
            self.selected = Some(self.articles.len());
        }
    }

    /// Move ten rows forward, clamped to the trailing row. Does nothing on
    /// an empty list.
    pub fn page_down(&mut self)
        requires
            old(self).wf(),
        ensures
            final(self).wf(),
            nav_frame(*old(self), *final(self)),
            old(self).n() == 0 ==> final(self).selected == old(self).selected,
            old(self).n() > 0 ==> final(self).selected == Some(
                page_down_sel(old(self).sel(), old(self).n()) as usize,
            ),
    {
        if self.articles.len() == 0 {
            return ;
        }
        let current = match self.selected {
            Some(i) => i,
            None => 0,
        };
        let n = self.articles.len();
        let i = if n - current >= 10 {
            current + 10
        } else {
            n
        };
        self.selected = Some(i);
    }

    /// Move ten rows backward, saturating at the first row. Does nothing on
    /// an empty list.
    pub fn page_up(&mut self)
        requires
            old(self).wf(),
        ensures
            final(self).wf(),
            nav_frame(*old(self), *final(self)),
            old(self).n() == 0 ==> final(self).selected == old(self).selected,
            old(self).n() > 0 ==> final(self).selected == Some(
                page_up_sel(old(self).sel()) as usize,
            ),
    {
        if self.articles.len() == 0 {
            return ;
        }
        let current = match self.selected {
            Some(i) => i,
            None => 0,
        };
        let i = if current >= 10 {
            current - 10
        } else {
            0
        };
        self.selected = Some(i);
    }

    /// Flip the detail view of the selected article. The trailing row has
    /// no detail: there the model is left exactly as it was.
    pub fn toggle_expand(&mut self)
        requires
            old(self).wf(),
        ensures
            final(self).wf(),
            expand_frame(*old(self), *final(self)),
            old(self).selected is None ==> *final(self) == *old(self),
            old(self).selected is Some && old(self).sel() == old(self).n() ==> *final(self)
                == *old(self),
            old(self).selected is Some && old(self).sel() < old(self).n() ==> final(self).expanded@
                == toggle_set(old(self).expanded@, old(self).selected.unwrap()),
    {
        if let Some(i) = self.selected {
            if i == self.articles.len() {
                return ;
            }
            if self.expanded.contains(&i) {
                self.expanded.remove(&i);
            } else {
                self.expanded.insert(i);
            }
        }
    }

    /// Whether the selected row is an expanded article.
    pub fn is_current_expanded(&self) -> (r: bool)
        ensures
            r == match self.selected {
                Some(i) => self.expanded@.contains(i),
                None => false,
            },
    {
        match self.selected {
            Some(i) => self.expanded.contains(&i),
            None => false,
        }
    }

    /// The selected article, or nothing when the selection is absent or on
    /// the trailing row.
    pub fn selected_article(&self) -> (r: Option<&Article>)
        ensures
            match self.selected {
                Some(i) => {
                    if i < self.articles.len() {
                        r == Some(&self.articles[i as int])
                    } else {
                        r is None
                    }
                },
                None => r is None,
            },
    {
        match self.selected {
            Some(i) => {
                if i < self.articles.len() {
                    Some(&self.articles[i])
                } else {
                    None
                }
            },
            None => None,
        }
    }

    /// URL of the site's front page, for the trailing row's action. The
    /// caller performs the actual browser launch.
    pub fn open_website(&self) -> (r: String)
        ensures
            r@ == self.base_url@,
    {
        self.base_url.clone()
    }

    /// URL the current selection asks to open: the selected article's link,
    /// or the site itself from the trailing row. The caller performs the
    /// actual browser launch and reports a failure via `set_last_error`.
    pub fn open_in_browser(&self) -> (r: Option<String>)
        ensures
            match self.selected {
                Some(i) => {
                    if i < self.articles.len() {
                        r is Some && r.unwrap()@ == self.articles[i as int].url@
                    } else {
                        r is Some && r.unwrap()@ == self.base_url@
                    }
                },
                None => r is None,
            },
    {
        match self.selected {
            Some(i) => {
                if i < self.articles.len() {
                    Some(self.articles[i].url.clone())
                } else {
                    Some(self.open_website())
                }
            },
            None => None,
        }
    }

    /// The context-sensitive Enter action: the trailing row asks to open
    /// the website; an already expanded article asks to open its link; a
    /// collapsed article is expanded. Returns the URL to open, if any.
    pub fn handle_enter(&mut self) -> (r: Option<String>)
        requires
            old(self).wf(),
        ensures
            final(self).wf(),
            expand_frame(*old(self), *final(self)),
            match old(self).selected {
                Some(i) => {
                    if i == old(self).articles.len() {
                        &&& *final(self) == *old(self)
                        &&& r is Some && r.unwrap()@ == old(self).base_url@
                    } else if old(self).expanded@.contains(i) {
                        &&& *final(self) == *old(self)
                        &&& r is Some && r.unwrap()@ == old(self).articles[i as int].url@
                    } else {
                        &&& final(self).expanded@ == old(self).expanded@.insert(i)
                        &&& r is None
                    }
                },
                None => *final(self) == *old(self) && r is None,
            },
    {
        match self.selected {
            Some(i) => {
                if i == self.articles.len() {
                    Some(self.open_website())
                } else if self.is_current_expanded() {
                    self.open_in_browser()
                } else {
                    self.toggle_expand();
                    None
                }
            },
            None => None,
        }
    }

    /// Collapse every expanded article.
    pub fn collapse_all(&mut self)
        requires
            old(self).wf(),
        ensures
            final(self).wf(),
            expand_frame(*old(self), *final(self)),
            final(self).expanded@ == Set::<usize>::empty(),
    {
        self.expanded.clear();
    }

    /// Request that the surrounding loop terminate.
    pub fn quit(&mut self)
        requires
            old(self).wf(),
        ensures
            final(self).wf(),
            final(self).should_quit,
            final(self).articles == old(self).articles,
            final(self).selected == old(self).selected,
            final(self).expanded == old(self).expanded,
            final(self).loading_state == old(self).loading_state,
            final(self).base_url == old(self).base_url,
            final(self).limit == old(self).limit,
            final(self).last_error == old(self).last_error,
            final(self).needs_refresh == old(self).needs_refresh,
    {
        self.should_quit = true;
    }

    /// Request that the surrounding loop refetch the articles.
    pub fn mark_for_refresh(&mut self)
        requires
            old(self).wf(),
        ensures
            final(self).wf(),
            final(self).needs_refresh,
            final(self).articles == old(self).articles,
            final(self).selected == old(self).selected,
            final(self).expanded == old(self).expanded,
            final(self).loading_state == old(self).loading_state,
            final(self).base_url == old(self).base_url,
            final(self).limit == old(self).limit,
            final(self).should_quit == old(self).should_quit,
            final(self).last_error == old(self).last_error,
    {
        self.needs_refresh = true;
    }

    /// Record a transient action error (a failed browser launch), shown as
    /// an overlay without interrupting the list.
    pub fn set_last_error(&mut self, msg: String)
        requires
            old(self).wf(),
        ensures
            final(self).wf(),
            final(self).last_error == Some(msg),
            final(self).articles == old(self).articles,
            final(self).selected == old(self).selected,
            final(self).expanded == old(self).expanded,
            final(self).loading_state == old(self).loading_state,
            final(self).base_url == old(self).base_url,
            final(self).limit == old(self).limit,
            final(self).should_quit == old(self).should_quit,
            final(self).needs_refresh == old(self).needs_refresh,
    {
        self.last_error = Some(msg);
    }

    /// Dismiss the transient action error after a new successful action.
    pub fn clear_last_error(&mut self)
        requires
            old(self).wf(),
        ensures
            final(self).wf(),
            final(self).last_error is None,
            final(self).articles == old(self).articles,
            final(self).selected == old(self).selected,
            final(self).expanded == old(self).expanded,
            final(self).loading_state == old(self).loading_state,
            final(self).base_url == old(self).base_url,
            final(self).limit == old(self).limit,
            final(self).should_quit == old(self).should_quit,
            final(self).needs_refresh == old(self).needs_refresh,
    {
        self.last_error = None;
    }
}

/// `i` stepped forward `k` times over the closed range `[0, n]`.
pub open spec fn iter_next(i: int, n: int, k: nat) -> int
    decreases k,
{
    if k == 0 {
        i
    } else {
        next_sel(iter_next(i, n, (k - 1) as nat), n)
    }
}

proof fn lemma_iter_next_compose(i: int, n: int, k1: nat, k2: nat)
    ensures
        iter_next(i, n, k1 + k2) == iter_next(iter_next(i, n, k1), n, k2),
    decreases k2,
{
    if k2 > 0 {
        lemma_iter_next_compose(i, n, k1, (k2 - 1) as nat);
    }
}

proof fn lemma_iter_next_within(i: int, n: int, k: nat)
    requires
        0 <= i,
        i + k <= n,
    ensures
        iter_next(i, n, k) == i + k,
    decreases k,
{
    if k > 0 {
        lemma_iter_next_within(i, n, (k - 1) as nat);
    }
}

/// Wraparound closure: from any selection over a list of `n` articles,
/// `n + 1` forward steps return the selection to its starting value — the
/// cursor cycles over the `n + 1` rows (articles plus the trailing row).
pub proof fn lemma_next_cycles(start: int, n: int)
    requires
        0 <= start <= n,
    ensures
        iter_next(start, n, (n + 1) as nat) == start,
{
    lemma_iter_next_within(start, n, (n - start) as nat);
    lemma_iter_next_compose(start, n, (n - start) as nat, 1nat);
    assert(iter_next(start, n, (n - start + 1) as nat) == 0);
    lemma_iter_next_compose(start, n, (n - start + 1) as nat, start as nat);
    lemma_iter_next_within(0, n, start as nat);
}

/// Stepping backward exactly inverts stepping forward, for every selection
/// in the closed range `[0, n]`.
pub proof fn lemma_previous_inverts_next(i: int, n: int)
    requires
        0 <= i <= n,
    ensures
        prev_sel(next_sel(i, n), n) == i,
        next_sel(prev_sel(i, n), n) == i,
{
}

/// Toggling the same index twice restores the expanded set exactly.
pub proof fn lemma_toggle_twice(e: Set<usize>, i: usize)
    ensures
        toggle_set(toggle_set(e, i), i) == e,
{
    if e.contains(i) {
        assert(toggle_set(toggle_set(e, i), i) =~= e);
    } else {
        assert(toggle_set(toggle_set(e, i), i) =~= e);
    }
}

} // verus!
