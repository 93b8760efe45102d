use vstd::prelude::*;

verus! {

/// How to reach the code host, and how loud to be.
#[derive(Clone, Debug)]
pub struct GithubEnv {
    pub github_api_token: String,
    pub workflow_repo: String,
    pub workflow_login: String,
    pub silent: bool,
    pub verbose: bool,
}

/// An open pull request: its number, title, address and label names.
#[derive(Clone, Debug)]
pub struct PullRequest {
    pub number: i64,
    pub name: String,
    pub url: String,
    pub labels: Vec<String>,
}

/// A label of a search hit.
#[derive(Clone, Debug)]
pub struct Labels {
    pub name: String,
}

/// One hit of a pull request search.
#[derive(Clone, Debug)]
pub struct Items {
    pub number: i64,
    pub title: String,
    pub html_url: String,
    pub labels: Vec<Labels>,
}

/// The answer to a pull request search.
#[derive(Clone, Debug)]
pub struct RootInterface {
    pub total_count: i64,
    pub incomplete_results: bool,
    pub items: Vec<Items>,
}

/// Why a repository name was refused.
#[derive(Clone, Copy, Debug, PartialEq, Eq, Structural)]
pub enum RepoNameError {
    /// The name is not of the form `owner/name`.
    WrongFormat,
}

impl RepoNameError {
    /// The message shown for the error.
    pub fn message(&self) -> (r: &'static str)
        ensures
            r@ == "wrong format for the repository name param (we expect something like facebook/graphql)"@,
    {
        "wrong format for the repository name param (we expect something like facebook/graphql)"
    }
}

/// The first `/` at or after `i`.
pub open spec fn slash_from(s: Seq<char>, i: int) -> Option<int>
    decreases s.len() - i,
{
    if i < 0 || i >= s.len() {
        None
    } else if s[i] == '/' {
        Some(i)
    } else {
        slash_from(s, i + 1)
    }
}

/// The owner and the name in `owner/name[/...]`: the text before the first
/// `/`, and the text between it and the next `/` or the end. None where the
/// text has no `/`.
pub open spec fn repo_parts(s: Seq<char>) -> Option<(Seq<char>, Seq<char>)> {
    match slash_from(s, 0) {
        Some(a) => {
            let end = match slash_from(s, a + 1) {
                Some(b) => b,
                None => s.len() as int,
            };
            Some((s.subrange(0, a), s.subrange(a + 1, end)))
        },
        None => None,
    }
}

proof fn lemma_slash_from_bounds(s: Seq<char>, i: int)
    requires
        0 <= i,
    ensures
        match slash_from(s, i) {
            Some(k) => i <= k < s.len() && s[k] == '/',
            None => true,
        },
    decreases s.len() - i,
{
    if i < s.len() && s[i] != '/' {
        lemma_slash_from_bounds(s, i + 1);
    }
}

fn find_slash(s: &str, n: usize, start: usize) -> (r: Option<usize>)
    requires
        n == s@.len(),
        start <= n,
    ensures
        match r {
            Some(k) => slash_from(s@, start as int) == Some(k as int) && start <= k < n,
            None => slash_from(s@, start as int).is_none(),
        },
{
    let mut i = start;
    while i < n
        invariant
            n == s@.len(),
            start <= i <= n,
            slash_from(s@, start as int) == slash_from(s@, i as int),
        decreases n - i,
    {
        if s.get_char(i) == '/' {
            return Some(i);
        }
        i = i + 1;
    }
    None
}

/// Splits `owner/name` into its owner and name.
pub fn parse_repo_name(repo_name: &str) -> (r: Result<(&str, &str), RepoNameError>)
    ensures
        match r {
            Ok((owner, name)) => repo_parts(repo_name@) == Some((owner@, name@)),
            Err(e) => repo_parts(repo_name@).is_none() && e == RepoNameError::WrongFormat,
        },
{
    let n = repo_name.unicode_len();
    match find_slash(repo_name, n, 0) {
        Some(a) => {
            let end = match find_slash(repo_name, n, a + 1) {
                Some(b) => b,
                None => n,
            };
            Ok((repo_name.substring_char(0, a), repo_name.substring_char(a + 1, end)))
        },
        None => Err(RepoNameError::WrongFormat),
    }
}

/// The search for pull requests of `owner/name` in the given state, by
/// `author` where one is given.
pub open spec fn search_url_for(
    owner: Seq<char>,
    name: Seq<char>,
    author: Seq<char>,
    open: bool,
) -> Seq<char> {
    "https://api.github.com/search/issues?q=is:"@ + (if open {
        "open"@
    } else {
        "closed"@
    }) + "+is:pr+repo:"@ + owner + "/"@ + name + (if author.len() > 0 {
        "+author:"@ + author
    } else {
        author
    }) + "&sort=created"@
}

/// Builds the search for the pull requests of a repository, open or
/// closed, by `author` where it is not empty.
pub fn search_url(repo_name: &str, author: &str, open: bool) -> (r: Result<String, RepoNameError>)
    ensures
        match repo_parts(repo_name@) {
            Some((owner, name)) => r is Ok && r->Ok_0@ == search_url_for(owner, name, author@, open),
            None => r == Err::<String, RepoNameError>(RepoNameError::WrongFormat),
        },
{
    let (owner, name) = match parse_repo_name(repo_name) {
        Ok(p) => p,
        Err(e) => return Err(e),
    };
    let state = if open {
        "open"
    } else {
        "closed"
    };
    let url = String::from_str("https://api.github.com/search/issues?q=is:").concat(state).concat(
        "+is:pr+repo:",
    ).concat(owner).concat("/").concat(name);
    let url = if author.unicode_len() > 0 {
        url.concat("+author:").concat(author)
    } else {
        url.concat(author)
    };
    let url = url.concat("&sort=created");
    let ghost a = if author@.len() > 0 {
        "+author:"@ + author@
    } else {
        author@
    };
    assert(url@ =~= search_url_for(owner@, name@, author@, open));
    Ok(url)
}

/// The names of some labels.
pub open spec fn label_names(labels: Seq<Labels>) -> Seq<Seq<char>> {
    Seq::new(labels.len(), |j: int| labels[j].name@)
}

/// The names of a hit's labels, in order.
pub fn names_of(labels: &Vec<Labels>) -> (r: Vec<String>)
    ensures
        r.deep_view() == label_names(labels@),
{
    let mut out: Vec<String> = Vec::new();
    let mut j: usize = 0;
    while j < labels.len()
        invariant
            j <= labels@.len(),
            out@.len() == j,
            forall|k: int| 0 <= k < j ==> (#[trigger] out@[k])@ == labels@[k].name@,
        decreases labels.len() - j,
    {
        out.push(labels[j].name.clone());
        j = j + 1;
    }
    assert(out.deep_view() =~= label_names(labels@));
    out
}

/// The pull request that a search hit stands for.
pub open spec fn pull_of(hit: Items, pr: PullRequest) -> bool {
    &&& pr.number == hit.number
    &&& pr.name@ == hit.title@
    &&& pr.url@ == hit.html_url@
    &&& pr.labels.deep_view() == label_names(hit.labels@)
}

/// The pull requests of a search answer, in its order.
pub fn prs(response_body: &RootInterface) -> (r: Vec<PullRequest>)
    ensures
        r@.len() == response_body.items@.len(),
        forall|i: int| 0 <= i < r@.len() ==> pull_of(response_body.items@[i], #[trigger] r@[i]),
{
    let mut branches: Vec<PullRequest> = Vec::new();
    let mut i: usize = 0;
    while i < response_body.items.len()
        invariant
            i <= response_body.items@.len(),
            branches@.len() == i,
            forall|k: int| 0 <= k < i ==> pull_of(response_body.items@[k], #[trigger] branches@[k]),
        decreases response_body.items.len() - i,
    {
        let issue = &response_body.items[i];
        let pull = PullRequest {
            number: issue.number,
            name: issue.title.clone(),
            url: issue.html_url.clone(),
            labels: names_of(&issue.labels),
        };
        branches.push(pull);
        i = i + 1;
    }
    branches
}

} // verus!
