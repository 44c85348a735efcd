//! What it takes to spawn a service: the program, its arguments, the working
//! directory and the environment overrides, all read off its definition.
use vstd::prelude::*;

verus! {

/// The whitespace-separated words of a command line, as `str::split_whitespace`
/// yields them.
pub uninterp spec fn words_of(s: Seq<char>) -> Seq<Seq<char>>;

/// Relies on `str::split_whitespace`: the words of `s` in order, each copied
/// into a `String`; an empty string has no words.
#[verifier::external_body]
fn split_words(s: &String) -> (r: Vec<String>)
    ensures
        strings_view(r@) == words_of(s@),
        s@.len() == 0 ==> r@.len() == 0,
{
    s.split_whitespace().map(String::from).collect()
}

/// The characters of each string of a sequence.
pub open spec fn strings_view(s: Seq<String>) -> Seq<Seq<char>> {
    s.map_values(|x: String| x@)
}

/// The characters of each name and value of a list of pairs.
pub open spec fn pairs_view(s: Seq<(String, String)>) -> Seq<(Seq<char>, Seq<char>)> {
    s.map_values(|p: (String, String)| (p.0@, p.1@))
}

/// The program of a list of words: the first, or nothing if there is none.
pub open spec fn first_word(w: Seq<Seq<char>>) -> Seq<char> {
    if w.len() > 0 {
        w[0]
    } else {
        Seq::empty()
    }
}

/// The arguments of a list of words: every word after the first.
pub open spec fn rest_words(w: Seq<Seq<char>>) -> Seq<Seq<char>> {
    if w.len() > 0 {
        w.drop_first()
    } else {
        Seq::empty()
    }
}

/// The program a command line runs: its first word.
pub open spec fn program_of(cmd: Seq<char>) -> Seq<char> {
    first_word(words_of(cmd))
}

/// The arguments a command line passes: every word after the first.
pub open spec fn args_of(cmd: Seq<char>) -> Seq<Seq<char>> {
    rest_words(words_of(cmd))
}

/// Everything needed to spawn one instance of a service.
#[derive(Clone, Debug, PartialEq, Eq)]
pub struct LaunchPlan {
    /// The program to execute.
    pub program: String,
    /// The arguments handed to it, in order.
    pub args: Vec<String>,
    /// The directory it runs in.
    pub working_directory: String,
    /// Variables set on top of the inherited environment, in order.
    pub environment: Vec<(String, String)>,
}

/// A copy of a list of name/value pairs.
pub fn copy_pairs(v: &Vec<(String, String)>) -> (r: Vec<(String, String)>)
    ensures
        pairs_view(r@) == pairs_view(v@),
{
    let mut r: Vec<(String, String)> = Vec::new();
    let mut i: usize = 0;
    while i < v.len()
        invariant
            0 <= i <= v@.len(),
            r@.len() == i,
            forall|j: int|
                0 <= j < i ==> #[trigger] r@[j].0@ == v@[j].0@ && r@[j].1@ == v@[j].1@,
        decreases v@.len() - i,
    {
        let name = v[i].0.clone();
        let value = v[i].1.clone();
        r.push((name, value));
        i += 1;
    }
    assert(pairs_view(r@) =~= pairs_view(v@));
    r
}

/// The launch plan of a command already split into words: the first word is
/// the program, the rest are its arguments; no words give an empty program
/// and no arguments.
pub fn plan_from_words(
    words: &Vec<String>,
    working_directory: &String,
    environment: &Option<Vec<(String, String)>>,
) -> (r: LaunchPlan)
    ensures
        r.program@ == first_word(strings_view(words@)),
        strings_view(r.args@) == rest_words(strings_view(words@)),
        r.working_directory@ == working_directory@,
        pairs_view(r.environment@) == match environment {
            Some(e) => pairs_view(e@),
            None => Seq::empty(),
        },
{
    let ghost w = strings_view(words@);
    let mut program = String::new();
    let mut args: Vec<String> = Vec::new();
    if words.len() > 0 {
        assert(words@[0]@ == w[0]);
        program = words[0].clone();
        let mut i: usize = 1;
        while i < words.len()
            invariant
                1 <= i <= words@.len(),
                strings_view(words@) == w,
                args@.len() == i - 1,
                forall|j: int| 0 <= j < i - 1 ==> #[trigger] args@[j]@ == w[j + 1],
            decreases words@.len() - i,
        {
            let a = words[i].clone();
            assert(a@ == w[i as int]);
            args.push(a);
            i += 1;
        }
        assert(strings_view(args@) =~= w.drop_first());
    } else {
        assert(strings_view(args@) =~= Seq::<Seq<char>>::empty());
    }
    let env = match environment {
        Some(e) => copy_pairs(e),
        None => {
            let v: Vec<(String, String)> = Vec::new();
            assert(pairs_view(v@) =~= Seq::<(Seq<char>, Seq<char>)>::empty());
            v
        },
    };
    LaunchPlan { program, args, working_directory: working_directory.clone(), environment: env }
}

/// The launch plan of a command line, directory and environment overrides:
/// the command is split on whitespace, then planned as its words are. An
/// empty command gives an empty program and no arguments.
pub fn plan_launch(
    command: &String,
    working_directory: &String,
    environment: &Option<Vec<(String, String)>>,
) -> (r: LaunchPlan)
    ensures
        r.program@ == program_of(command@),
        strings_view(r.args@) == args_of(command@),
        r.working_directory@ == working_directory@,
        pairs_view(r.environment@) == match environment {
            Some(e) => pairs_view(e@),
            None => Seq::empty(),
        },
        command@.len() == 0 ==> r.program@.len() == 0 && r.args@.len() == 0,
{
    let words = split_words(command);
    plan_from_words(&words, working_directory, environment)
}

} // verus!
