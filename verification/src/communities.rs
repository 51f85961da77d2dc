//! The Home list of joined communities and the repository browser with its
//! fuzzy filter.
use vstd::prelude::*;
use crate::keys::{KeyCode, KeyEvent};
use crate::text::{chars_of, pop_char, push_char, trim, trim_chars};
use nucleo_matcher::pattern::{CaseMatching, Normalization, Pattern};

verus! {

/// Score of `haystack` against the fuzzy pattern `pattern`, as
/// `nucleo_matcher` computes it (case-insensitive, smart normalization);
/// `None` when it does not match. The scoring is that crate's and is not
/// restated here.
pub uninterp spec fn fuzzy_score(pattern: Seq<char>, haystack: Seq<char>) -> Option<u32>;

/// `nucleo_matcher::pattern::Pattern::parse(pattern, CaseMatching::Ignore,
/// Normalization::Smart).score(haystack, ..)` with a default matcher.
#[verifier::external_body]
fn nucleo_score(pattern: &str, haystack: &str) -> (r: Option<u32>)
    ensures
        r == fuzzy_score(pattern@, haystack@),
{
    let mut matcher = nucleo_matcher::Matcher::new(nucleo_matcher::Config::DEFAULT);
    let parsed = Pattern::parse(pattern, CaseMatching::Ignore, Normalization::Smart);
    let mut buf = Vec::new();
    parsed.score(nucleo_matcher::Utf32Str::new(haystack, &mut buf), &mut matcher)
}

/// `i` ranks before `j`: a higher score, or the same score and an earlier index.
pub open spec fn ranks_before(scores: Seq<Option<u32>>, i: int, j: int) -> bool {
    scores[i]->0 > scores[j]->0 || (scores[i]->0 == scores[j]->0 && i < j)
}

/// `r` lists exactly the indices that have a score, best first, ties by index.
pub open spec fn is_ranking(scores: Seq<Option<u32>>, r: Seq<usize>) -> bool {
    &&& forall|k: int| 0 <= k < r.len() ==> (r[k] < scores.len() && scores[r[k] as int] is Some)
    &&& forall|i: int| 0 <= i < scores.len() && scores[i] is Some ==> r.contains(i as usize)
    &&& forall|a: int, b: int| 0 <= a < b < r.len() ==> ranks_before(scores, r[a] as int, r[b] as int)
}

/// The indices with a score, best first.
pub fn rank(scores: &Vec<Option<u32>>) -> (r: Vec<usize>)
    ensures
        is_ranking(scores@, r@),
{
    let mut r: Vec<usize> = Vec::new();
    let mut i: usize = 0;
    while i < scores.len()
        invariant
            0 <= i <= scores@.len(),
            forall|k: int| 0 <= k < r@.len() ==> (r@[k] < i && scores@[r@[k] as int] is Some),
            forall|j: int| 0 <= j < i && scores@[j] is Some ==> r@.contains(j as usize),
            forall|a: int, b: int|
                0 <= a < b < r@.len() ==> ranks_before(scores@, r@[a] as int, r@[b] as int),
        decreases scores@.len() - i,
    {
        match scores[i] {
            None => {},
            Some(s) => {
                let mut pos: usize = 0;
                while pos < r.len() && scores[r[pos]].unwrap() >= s
                    invariant
                        0 <= pos <= r@.len(),
                        i < scores@.len(),
                        scores@[i as int] == Some(s),
                        forall|k: int| 0 <= k < r@.len() ==> (r@[k] < i && scores@[r@[k] as int] is Some),
                        forall|k: int| 0 <= k < pos ==> ranks_before(scores@, r@[k] as int, i as int),
                    decreases r@.len() - pos,
                {
                    pos = pos + 1;
                }
                let ghost old_r = r@;
                proof {
                    assert forall|k: int| pos <= k < old_r.len() implies ranks_before(
                        scores@,
                        i as int,
                        old_r[k] as int,
                    ) by {
                        if k > pos as int {
                            assert(ranks_before(scores@, old_r[pos as int] as int, old_r[k] as int));
                        }
                    }
                }
                r.insert(pos, i);
                proof {
                    assert forall|a: int, b: int| 0 <= a < b < r@.len() implies ranks_before(
                        scores@,
                        r@[a] as int,
                        r@[b] as int,
                    ) by {
                        if a < pos && b == pos {
                        } else if a < pos && b > pos {
                            assert(r@[b] == old_r[b - 1]);
                            assert(ranks_before(scores@, old_r[a] as int, i as int));
                        } else if a == pos {
                            assert(r@[b] == old_r[b - 1]);
                        } else if a > pos {
                            assert(r@[a] == old_r[a - 1]);
                            assert(r@[b] == old_r[b - 1]);
                        }
                    }
                    assert forall|j: int| 0 <= j < i + 1 && scores@[j] is Some implies r@.contains(
                        j as usize,
                    ) by {
                        if j < i {
                            let k = choose|k: int| 0 <= k < old_r.len() && old_r[k] == j as usize;
                            if k < pos {
                                assert(r@[k] == j as usize);
                            } else {
                                assert(r@[k + 1] == j as usize);
                            }
                        } else {
                            assert(r@[pos as int] == i);
                        }
                    }
                }
            },
        }
        i = i + 1;
    }
    r
}

/// Rows kept by the filter: all repositories in order when the filter is
/// blank, otherwise those whose full name matches, best first.
pub open spec fn spec_fuzzy_filter(names: Seq<Seq<char>>, filter: Seq<char>, r: Seq<usize>) -> bool {
    if trim(filter).len() == 0 {
        r == Seq::new(names.len(), |i: int| i as usize)
    } else {
        is_ranking(Seq::new(names.len(), |i: int| fuzzy_score(filter, names[i])), r)
    }
}

/// A starred, owned or contributed repository and its community, if any.
#[derive(Debug)]
pub struct BrowseRepo {
    pub owner: String,
    pub name: String,
    pub full_name: String,
    pub private: bool,
    /// The repository's community, when it has one.
    pub community_id: Option<u128>,
    /// The user is a member of that community.
    pub is_member: bool,
}

pub open spec fn full_names(repos: Seq<BrowseRepo>) -> Seq<Seq<char>> {
    Seq::new(repos.len(), |i: int| repos[i].full_name@)
}

/// Indices of the repositories that survive `filter`, in display order.
pub fn fuzzy_filter(repos: &Vec<BrowseRepo>, filter: &str) -> (r: Vec<usize>)
    ensures
        spec_fuzzy_filter(full_names(repos@), filter@, r@),
{
    let f = chars_of(filter);
    let t = trim_chars(f.as_slice());
    if t.len() == 0 {
        let mut r: Vec<usize> = Vec::new();
        let mut i: usize = 0;
        while i < repos.len()
            invariant
                0 <= i <= repos@.len(),
                r@ == Seq::new(i as nat, |k: int| k as usize),
            decreases repos@.len() - i,
        {
            r.push(i);
            proof {
                assert(r@ =~= Seq::new((i + 1) as nat, |k: int| k as usize));
            }
            i = i + 1;
        }
        return r;
    }
    let mut scores: Vec<Option<u32>> = Vec::new();
    let mut i: usize = 0;
    while i < repos.len()
        invariant
            0 <= i <= repos@.len(),
            scores@ == Seq::new(i as nat, |k: int| fuzzy_score(filter@, repos@[k].full_name@)),
        decreases repos@.len() - i,
    {
        scores.push(nucleo_score(filter, repos[i].full_name.as_str()));
        proof {
            assert(scores@ =~= Seq::new(
                (i + 1) as nat,
                |k: int| fuzzy_score(filter@, repos@[k].full_name@),
            ));
        }
        i = i + 1;
    }
    assert(scores@ =~= Seq::new(
        full_names(repos@).len(),
        |k: int| fuzzy_score(filter@, full_names(repos@)[k]),
    ));
    rank(&scores)
}

/// What opening the selected repository asks for.
#[derive(Debug)]
pub enum BrowserAction {
    /// Private repositories cannot have communities.
    RefusePrivate,
    /// Open the community the user already belongs to.
    Open(u128),
    /// Join (creating if needed) the community of `owner/name`.
    Join { owner: String, name: String },
}

/// The repository browser.
pub struct CommunityBrowserState {
    pub show: bool,
    pub repos: Vec<BrowseRepo>,
    /// Fuzzy filter typed by the user.
    pub filter: String,
    /// Indices into `repos` that survive the filter, best match first.
    pub visible: Vec<usize>,
    /// Selected row of `visible`.
    pub selected: Option<usize>,
    pub loading: bool,
    pub loaded: bool,
    pub joining: bool,
    pub error: Option<String>,
    pub message: Option<String>,
}

/// Step a wrapping selection over `len` rows by `delta` from `current`
/// (row 0 when nothing is selected); nothing is selected in an empty list.
pub open spec fn spec_move_selection(current: Option<usize>, len: int, delta: int) -> Option<usize> {
    if len == 0 {
        None
    } else {
        let cur = match current {
            Some(c) => c as int,
            None => 0,
        };
        Some(((cur + delta) % len) as usize)
    }
}

/// Step a wrapping selection.
pub fn move_selection(current: Option<usize>, len: usize, delta: i64) -> (r: Option<usize>)
    requires
        len <= i64::MAX,
        current matches Some(c) ==> c <= i64::MAX,
        i64::MIN <= (match current {
            Some(c) => c as int,
            None => 0,
        }) + delta <= i64::MAX,
    ensures
        r == spec_move_selection(current, len as int, delta as int),
{
    if len == 0 {
        return None;
    }
    let cur: i64 = match current {
        Some(c) => c as i64,
        None => 0,
    };
    let x: i64 = cur + delta;
    let m: u64 = len as u64;
    let r: u64 = if x >= 0 {
        (x as u64) % m
    } else {
        let nx: u64 = (0i128 - (x as i128)) as u64;
        let k = nx % m;
        proof {
            let q = nx as int / m as int;
            vstd::arithmetic::div_mod::lemma_fundamental_div_mod(nx as int, m as int);
            if k != 0 {
                assert(x as int == (-q - 1) * (m as int) + (m - k)) by (nonlinear_arith)
                    requires
                        nx as int == q * m as int + k as int,
                        x as int == -(nx as int),
                {
                }
                vstd::arithmetic::div_mod::lemma_fundamental_div_mod_converse(
                    x as int,
                    m as int,
                    -q - 1,
                    (m - k) as int,
                );
            } else {
                assert(x as int == (-q) * (m as int) + 0) by (nonlinear_arith)
                    requires
                        nx as int == q * m as int + k as int,
                        x as int == -(nx as int),
                        k == 0,
                {
                }
                vstd::arithmetic::div_mod::lemma_fundamental_div_mod_converse(
                    x as int,
                    m as int,
                    -q,
                    0,
                );
            }
        }
        if k == 0 {
            0
        } else {
            m - k
        }
    };
    Some(r as usize)
}

/// `new` is `old` with its filter changed (possibly), the visible rows
/// recomputed from that filter, and the first of them selected.
pub open spec fn refiltered(old: CommunityBrowserState, new: CommunityBrowserState) -> bool {
    &&& new == (CommunityBrowserState {
        filter: new.filter,
        visible: new.visible,
        selected: new.selected,
        ..old
    })
    &&& spec_fuzzy_filter(full_names(new.repos@), new.filter@, new.visible@)
    &&& new.selected == (if new.visible@.len() == 0 {
        None
    } else {
        Some(0usize)
    })
}

impl CommunityBrowserState {
    /// Recompute the visible rows from the filter and select the first one.
    pub fn apply_filter(&mut self)
        ensures
            spec_fuzzy_filter(full_names(final(self).repos@), final(self).filter@, final(self).visible@),
            final(self).selected == (if final(self).visible@.len() == 0 {
                None
            } else {
                Some(0usize)
            }),
            *final(self) == (CommunityBrowserState {
                visible: final(self).visible,
                selected: final(self).selected,
                ..*old(self)
            }),
    {
        self.visible = fuzzy_filter(&self.repos, self.filter.as_str());
        if self.visible.len() == 0 {
            self.selected = None;
        } else {
            self.selected = Some(0);
        }
    }

    pub open spec fn spec_selected_repo(&self) -> Option<usize> {
        match self.selected {
            Some(row) => if row < self.visible@.len() && self.visible@[row as int]
                < self.repos@.len() {
                Some(self.visible@[row as int])
            } else {
                None
            },
            None => None,
        }
    }

    /// The repository on the selected row.
    pub fn selected_repo(&self) -> (r: Option<usize>)
        ensures
            r == self.spec_selected_repo(),
            r == (match self.selected {
                Some(row) => if row < self.visible@.len() && self.visible@[row as int]
                    < self.repos@.len() {
                    Some(self.visible@[row as int])
                } else {
                    None
                },
                None => None,
            }),
    {
        match self.selected {
            Some(row) => if row < self.visible.len() && self.visible[row] < self.repos.len() {
                Some(self.visible[row])
            } else {
                None
            },
            None => None,
        }
    }

    /// Handle a key in the repository browser, which is a text input:
    /// characters (without Ctrl or Alt) and Backspace edit the filter, the
    /// arrows move, and Esc clears a filter or, with none, asks to close
    /// the browser (the result).
    pub fn handle_community_browser_keys(&mut self, key: KeyEvent) -> (close: bool)
        requires
            old(self).visible@.len() <= i64::MAX,
            old(self).selected matches Some(c) ==> c < i64::MAX,
        ensures
            close == (key.code == KeyCode::Esc && old(self).filter@.len() == 0),
            match key.code {
                KeyCode::Esc => if old(self).filter@.len() == 0 {
                    *final(self) == *old(self)
                } else {
                    refiltered(*old(self), *final(self)) && final(self).filter@.len() == 0
                },
                KeyCode::Down => *final(self) == (CommunityBrowserState {
                    selected: spec_move_selection(old(self).selected, old(self).visible@.len() as int, 1),
                    ..*old(self)
                }),
                KeyCode::Up => *final(self) == (CommunityBrowserState {
                    selected: spec_move_selection(old(self).selected, old(self).visible@.len() as int, -1),
                    ..*old(self)
                }),
                KeyCode::Backspace => refiltered(*old(self), *final(self)) && final(self).filter@ == (
                if old(self).filter@.len() > 0 {
                    old(self).filter@.drop_last()
                } else {
                    old(self).filter@
                }),
                KeyCode::Char(c) => if !key.modifiers.control && !key.modifiers.alt {
                    refiltered(*old(self), *final(self)) && final(self).filter@ == old(self).filter@.push(c)
                } else {
                    *final(self) == *old(self)
                },
                _ => *final(self) == *old(self),
            },
    {
        match key.code {
            KeyCode::Esc => {
                if self.filter.as_str().is_empty() {
                    return true;
                }
                self.filter = String::new();
                self.apply_filter();
            },
            KeyCode::Down => {
                move_browser_selection(self, 1);
            },
            KeyCode::Up => {
                move_browser_selection(self, -1);
            },
            KeyCode::Backspace => {
                pop_char(&mut self.filter);
                self.apply_filter();
            },
            KeyCode::Char(c) => {
                if !key.modifiers.control && !key.modifiers.alt {
                    push_char(&mut self.filter, c);
                    self.apply_filter();
                }
            },
            _ => {},
        }
        false
    }

    /// What pressing Enter on the selected repository asks for.
    pub fn open_or_join_action(&self) -> (r: Option<BrowserAction>)
        ensures
            match self.spec_selected_repo() {
                None => r is None,
                Some(k) => {
                    let repo = self.repos@[k as int];
                    if repo.private {
                        r matches Some(BrowserAction::RefusePrivate)
                    } else if repo.community_id is Some && repo.is_member {
                        r == Some(BrowserAction::Open(repo.community_id->0))
                    } else {
                        r matches Some(BrowserAction::Join { owner, name }) && owner@
                            == repo.owner@ && name@ == repo.name@
                    }
                },
            },
    {
        let k = match self.selected_repo() {
            Some(k) => k,
            None => return None,
        };
        let repo = &self.repos[k];
        if repo.private {
            return Some(BrowserAction::RefusePrivate);
        }
        match repo.community_id {
            Some(id) if repo.is_member => Some(BrowserAction::Open(id)),
            _ => Some(
                BrowserAction::Join {
                    owner: crate::text::owned(repo.owner.as_str()),
                    name: crate::text::owned(repo.name.as_str()),
                },
            ),
        }
    }
}

/// The joined-communities list shown outside a repository.
pub struct HomeState {
    /// Ids of the joined communities, in display order.
    pub communities: Vec<u128>,
    pub selected: Option<usize>,
    pub loading: bool,
    pub loaded: bool,
    pub error: Option<String>,
}

impl HomeState {
    /// An empty, unloaded list.
    pub fn new() -> (s: Self)
        ensures
            s.communities@.len() == 0,
            s.selected is None,
            !s.loading,
            !s.loaded,
            s.error is None,
    {
        HomeState { communities: Vec::new(), selected: None, loading: false, loaded: false, error: None }
    }

    /// Start loading the joined communities: loading, no error shown.
    pub fn begin_load(&mut self)
        ensures
            *final(self) == (HomeState { loading: true, error: None, ..*old(self) }),
    {
        self.loading = true;
        self.error = None;
    }

    /// Loading ended: `Ok` lists the communities from the first, an error
    /// is shown as the (categorized) `message`.
    pub fn finish_load(&mut self, result: Result<Vec<u128>, String>)
        ensures
            match result {
                Ok(c) => *final(self) == (HomeState {
                    communities: c,
                    loaded: true,
                    selected: if c@.len() > 0 {
                        Some(0usize)
                    } else {
                        None
                    },
                    loading: false,
                    ..*old(self)
                }),
                Err(m) => *final(self) == (HomeState { error: Some(m), loading: false, ..*old(self) }),
            },
    {
        match result {
            Ok(c) => {
                let some = c.len() > 0;
                self.communities = c;
                self.loaded = true;
                if some {
                    self.selected = Some(0);
                } else {
                    self.selected = None;
                }
            },
            Err(m) => {
                self.error = Some(m);
            },
        }
        self.loading = false;
    }

    /// The selected community's id.
    pub fn selected_community(&self) -> (r: Option<u128>)
        ensures
            r == (match self.selected {
                Some(i) => if i < self.communities@.len() {
                    Some(self.communities@[i as int])
                } else {
                    None
                },
                None => None,
            }),
    {
        match self.selected {
            Some(i) => if i < self.communities.len() {
                Some(self.communities[i])
            } else {
                None
            },
            None => None,
        }
    }
}

/// Move through the Home list by `delta` rows, wrapping around.
pub fn move_home_selection(home: &mut HomeState, delta: i64)
    requires
        old(home).communities@.len() <= i64::MAX,
        old(home).selected matches Some(c) ==> c <= i64::MAX,
        i64::MIN <= (match old(home).selected {
            Some(c) => c as int,
            None => 0,
        }) + delta <= i64::MAX,
    ensures
        *final(home) == (HomeState {
            selected: spec_move_selection(old(home).selected, old(home).communities@.len() as int, delta as int),
            ..*old(home)
        }),
{
    home.selected = move_selection(home.selected, home.communities.len(), delta);
}

/// Move through the browser's visible rows by `delta`, wrapping around.
pub fn move_browser_selection(browser: &mut CommunityBrowserState, delta: i64)
    requires
        old(browser).visible@.len() <= i64::MAX,
        old(browser).selected matches Some(c) ==> c <= i64::MAX,
        i64::MIN <= (match old(browser).selected {
            Some(c) => c as int,
            None => 0,
        }) + delta <= i64::MAX,
    ensures
        *final(browser) == (CommunityBrowserState {
            selected: spec_move_selection(old(browser).selected, old(browser).visible@.len() as int, delta as int),
            ..*old(browser)
        }),
{
    browser.selected = move_selection(browser.selected, browser.visible.len(), delta);
}

/// The error when the selected repository is private.
pub fn private_repo_message() -> (r: &'static str)
    ensures
        r@ == "Private repositories cannot create Fido communities yet"@,
{
    "Private repositories cannot create Fido communities yet"
}

impl CommunityBrowserState {
    /// Show the browser; true when its repositories still have to be loaded.
    pub fn open_browser(&mut self) -> (load: bool)
        ensures
            load == !old(self).loaded,
            *final(self) == (CommunityBrowserState { show: true, error: None, ..*old(self) }),
    {
        self.show = true;
        self.error = None;
        !self.loaded
    }

    /// Hide the browser, clearing its filter, error and notice.
    pub fn close_browser(&mut self)
        ensures
            refiltered(
                CommunityBrowserState { show: false, error: None, message: None, ..*old(self) },
                *final(self),
            ),
            final(self).filter@.len() == 0,
    {
        self.show = false;
        self.error = None;
        self.message = None;
        self.filter = String::new();
        self.apply_filter();
    }

    /// Start loading the repositories.
    pub fn begin_browser_load(&mut self)
        ensures
            *final(self) == (CommunityBrowserState {
                loading: true,
                error: None,
                message: None,
                ..*old(self)
            }),
    {
        self.loading = true;
        self.error = None;
        self.message = None;
    }

    /// The repositories arrived; what the user typed still filters them.
    pub fn apply_loaded_repos(&mut self, repos: Vec<BrowseRepo>)
        ensures
            refiltered(
                CommunityBrowserState { repos: repos, loaded: true, loading: false, ..*old(self) },
                *final(self),
            ),
            final(self).filter == old(self).filter,
    {
        self.repos = repos;
        self.loaded = true;
        self.loading = false;
        self.apply_filter();
    }

    /// A request of the browser failed with the (categorized) message
    /// `message`; nothing is loading or joining any more.
    pub fn apply_browser_error(&mut self, message: String)
        ensures
            *final(self) == (CommunityBrowserState {
                error: Some(message),
                loading: false,
                joining: false,
                ..*old(self)
            }),
    {
        self.error = Some(message);
        self.loading = false;
        self.joining = false;
    }

    /// Start opening or joining the selected repository's community.
    pub fn begin_join(&mut self)
        ensures
            *final(self) == (CommunityBrowserState {
                joining: true,
                error: None,
                message: None,
                ..*old(self)
            }),
    {
        self.joining = true;
        self.error = None;
        self.message = None;
    }

    /// The community was entered: the browser closes and reloads next time.
    pub fn apply_joined(&mut self)
        ensures
            *final(self) == (CommunityBrowserState {
                show: false,
                loaded: false,
                joining: false,
                ..*old(self)
            }),
    {
        self.show = false;
        self.loaded = false;
        self.joining = false;
    }
}

} // verus!
