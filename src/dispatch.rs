use vstd::prelude::*;
use crate::command::{args_of, program_of, split_command, strings_view};
use crate::config::{Project, UpdateHookConfig};
use crate::payload::{extract_repo_name, form_pairs_of, pairs_view, repo_name_from, repo_name_in, repo_name_of};
use crate::text::same_text;

verus! {

/// The lower-case form of a string, as Unicode defines it.
pub uninterp spec fn lower_of(s: Seq<char>) -> Seq<char>;

/// Relies on str::to_lowercase: the lower-case form depends on the
/// characters alone.
#[verifier::external_body]
fn lowercase(s: &str) -> (r: String)
    ensures
        r@ == lower_of(s@),
{
    s.to_lowercase()
}

/// A configured repository matches a delivered identifier when the two are
/// equal once lower-cased.
pub open spec fn repo_matches_spec(repo: Seq<char>, name: Seq<char>) -> bool {
    lower_of(repo) == lower_of(name)
}

/// Whether the configured `repo` matches the delivered identifier `name`,
/// ignoring case.
pub fn repo_matches(repo: &str, name: &str) -> (r: bool)
    ensures
        r == repo_matches_spec(repo@, name@),
{
    let a = lowercase(repo);
    let b = lowercase(name);
    same_text(a.as_str(), b.as_str())
}

/// A command to run for a delivery: the project's repository, the program
/// and its arguments.
pub struct Job {
    pub repo: String,
    pub program: String,
    pub args: Vec<String>,
}

impl View for Job {
    type V = (Seq<char>, Seq<char>, Seq<Seq<char>>);

    open spec fn view(&self) -> Self::V {
        (self.repo@, self.program@, strings_view(self.args@))
    }
}

/// The jobs of a plan, as values.
pub open spec fn jobs_view(v: Seq<Job>) -> Seq<(Seq<char>, Seq<char>, Seq<Seq<char>>)> {
    v.map_values(|j: Job| j@)
}

/// The job that a project's command line gives.
pub open spec fn job_of(p: Project) -> (Seq<char>, Seq<char>, Seq<Seq<char>>) {
    (p.repo@, program_of(p.command@), args_of(p.command@))
}

/// Whether a project fires for the delivered identifier `name`.
pub open spec fn fires_for(p: Project, name: Seq<char>) -> bool {
    repo_matches_spec(p.repo@, name)
}

/// The jobs for a delivered identifier: one for every project that matches
/// it, in the order of the configuration.
pub open spec fn jobs_for(projects: Seq<Project>, name: Seq<char>) -> Seq<(Seq<char>, Seq<char>, Seq<Seq<char>>)> {
    projects.filter(|p: Project| fires_for(p, name)).map_values(|p: Project| job_of(p))
}

/// The jobs for a delivery body whose form decoded to `pairs`: none where
/// the delivery carries no repository identifier.
pub open spec fn jobs_for_delivery(
    projects: Seq<Project>,
    pairs: Seq<(Seq<char>, Seq<char>)>,
    body: Seq<u8>,
) -> Seq<(Seq<char>, Seq<char>, Seq<Seq<char>>)> {
    match repo_name_from(pairs, body) {
        Some(name) => jobs_for(projects, name),
        None => Seq::empty(),
    }
}

/// A delivery that no project matches plans no job, so nothing is run.
pub proof fn lemma_no_match_no_jobs(projects: Seq<Project>, name: Seq<char>)
    requires
        forall|i: int| 0 <= i < projects.len() ==> !fires_for(#[trigger] projects[i], name),
    ensures
        jobs_for(projects, name).len() == 0,
    decreases projects.len(),
{
    reveal(Seq::filter);
    if projects.len() > 0 {
        let rest = projects.drop_last();
        assert forall|i: int| 0 <= i < rest.len() implies !fires_for(#[trigger] rest[i], name) by {
            assert(rest[i] == projects[i]);
        }
        lemma_no_match_no_jobs(rest, name);
        assert(!fires_for(projects[projects.len() - 1], name));
    }
}

/// Every matching project fires, not only the first: two projects whose
/// repositories are equal once lower-cased both run, in order, for a
/// delivery that matches them.
pub proof fn lemma_same_repo_both_fire(p1: Project, p2: Project, name: Seq<char>)
    requires
        lower_of(p1.repo@) == lower_of(p2.repo@),
        lower_of(p1.repo@) == lower_of(name),
    ensures
        jobs_for(seq![p1, p2], name) == seq![job_of(p1), job_of(p2)],
{
    reveal_with_fuel(Seq::filter, 3);
    let s = seq![p1, p2];
    let f = |p: Project| fires_for(p, name);
    assert(s.drop_last() == seq![p1]);
    assert(seq![p1].drop_last() == Seq::<Project>::empty());
    assert(s.filter(f) == seq![p1, p2]);
    assert(seq![p1, p2].map_values(|p: Project| job_of(p)) =~= seq![job_of(p1), job_of(p2)]);
}

/// The job for one project.
pub fn job_for(p: &Project) -> (r: Job)
    ensures
        r@ == job_of(*p),
{
    let (program, args) = split_command(p.command.as_str());
    Job { repo: p.repo.clone(), program, args }
}

/// Plans the jobs for the delivered identifier `name`: every matching
/// project fires, not only the first.
pub fn plan_jobs(config: &UpdateHookConfig, name: &str) -> (r: Vec<Job>)
    ensures
        jobs_view(r@) == jobs_for(config.project@, name@),
{
    let projects = &config.project;
    let mut jobs: Vec<Job> = Vec::new();
    let mut i: usize = 0;
    assert(projects@.take(0).filter(|p: Project| fires_for(p, name@)) == Seq::<Project>::empty()) by {
        reveal(Seq::filter);
    }
    while i < projects.len()
        invariant
            i <= projects@.len(),
            jobs_view(jobs@) == jobs_for(projects@.take(i as int), name@),
        decreases projects@.len() - i,
    {
        let ghost f = |p: Project| fires_for(p, name@);
        let ghost before = jobs@;
        let ghost head = projects@.take(i as int);
        let ghost next = projects@.take(i + 1);
        assert(next.drop_last() == head);
        assert(next.last() == projects@[i as int]);
        assert(next.filter(f) == if f(next.last()) {
            head.filter(f).push(next.last())
        } else {
            head.filter(f)
        }) by {
            reveal(Seq::filter);
        }
        if repo_matches(projects[i].repo.as_str(), name) {
            let job = job_for(&projects[i]);
            jobs.push(job);
            assert(jobs_view(jobs@) == jobs_view(before).push(jobs@.last()@));
            assert(head.filter(f).push(next.last()).map_values(|p: Project| job_of(p))
                == head.filter(f).map_values(|p: Project| job_of(p)).push(job_of(next.last())));
        }
        i = i + 1;
    }
    assert(projects@.take(projects@.len() as int) == projects@);
    jobs
}

/// Plans the jobs for a delivery body whose form decoded to `pairs`.
pub fn dispatch_jobs(config: &UpdateHookConfig, pairs: &Vec<(String, String)>, body: &[u8]) -> (r: Vec<Job>)
    ensures
        jobs_view(r@) == jobs_for_delivery(config.project@, pairs_view(pairs@), body@),
{
    match repo_name_in(pairs, body) {
        Some(name) => plan_jobs(config, name.as_str()),
        None => Vec::new(),
    }
}

/// Plans the jobs for a delivery body. A body that holds no repository
/// identifier, or is malformed, plans nothing; the body is never a reason
/// to fail.
pub fn handle_payload(config: &UpdateHookConfig, body: &[u8]) -> (r: Vec<Job>)
    ensures
        jobs_view(r@) == jobs_for_delivery(config.project@, form_pairs_of(body@), body@),
        repo_name_of(body@) is None ==> r@.len() == 0,
{
    match extract_repo_name(body) {
        Some(name) => plan_jobs(config, name.as_str()),
        None => Vec::new(),
    }
}

} // verus!
