//! What it takes to start an external program, as plain values.

use crate::text::texts;
use vstd::prelude::*;

verus! {

/// A program to run, with its arguments and the environment variables to set
/// for it.
pub struct Invocation {
    pub program: String,
    pub args: Vec<String>,
    pub env: Vec<(String, String)>,
}

/// The mathematical value of an [`Invocation`].
pub struct InvocationView {
    pub program: Seq<char>,
    pub args: Seq<Seq<char>>,
    pub env: Seq<(Seq<char>, Seq<char>)>,
}

/// The texts held by a sequence of pairs of strings.
pub open spec fn pairs(strings: Seq<(String, String)>) -> Seq<(Seq<char>, Seq<char>)> {
    Seq::new(strings.len(), |i: int| (strings[i].0@, strings[i].1@))
}

impl View for Invocation {
    type V = InvocationView;

    open spec fn view(&self) -> InvocationView {
        InvocationView { program: self.program@, args: texts(self.args@), env: pairs(self.env@) }
    }
}

/// Appends a copy of `text` to `args`.
pub fn push_text(args: &mut Vec<String>, text: &str)
    ensures
        texts(final(args)@) == texts(old(args)@).push(text@),
{
    let ghost before = texts(args@);
    args.push(text.to_owned());
    assert(texts(args@) =~= before.push(text@));
}

/// An invocation of `program` with `args` and no change to the environment.
pub fn plain(program: &str, args: Vec<String>) -> (invocation: Invocation)
    ensures
        invocation@ == (InvocationView {
            program: program@,
            args: texts(args@),
            env: Seq::empty(),
        }),
{
    let env: Vec<(String, String)> = Vec::new();
    let invocation = Invocation { program: program.to_owned(), args, env };
    assert(invocation@.env =~= Seq::empty());
    invocation
}

/// Appends copies of `more` to `args`.
pub fn extend(args: &mut Vec<String>, more: &Vec<String>)
    ensures
        texts(final(args)@) == texts(old(args)@) + texts(more@),
{
    let ghost before = texts(args@);
    let mut i: usize = 0;
    while i < more.len()
        invariant
            i <= more.len(),
            texts(args@) == before + texts(more@).take(i as int),
        decreases more.len() - i,
    {
        push_text(args, more[i].as_str());
        assert(texts(args@) =~= before + texts(more@).take(i + 1));
        i += 1;
    }
    assert(texts(more@).take(more.len() as int) == texts(more@));
}

/// Appends, for each item of `values`, `flag` and then the item.
pub fn extend_flagged(args: &mut Vec<String>, flag: &str, values: &Vec<String>)
    ensures
        texts(final(args)@) == texts(old(args)@) + flagged(flag@, texts(values@)),
{
    let ghost before = texts(args@);
    let mut i: usize = 0;
    assert(texts(values@).take(0) == Seq::<Seq<char>>::empty());
    assert(texts(args@) =~= before + flagged(flag@, texts(values@).take(0)));
    while i < values.len()
        invariant
            i <= values.len(),
            texts(args@) == before + flagged(flag@, texts(values@).take(i as int)),
        decreases values.len() - i,
    {
        let ghost upto = texts(values@).take(i + 1);
        assert(upto.drop_last() == texts(values@).take(i as int));
        assert(upto.last() == values@[i as int]@);
        push_text(args, flag);
        push_text(args, values[i].as_str());
        assert(texts(args@) =~= before + flagged(flag@, upto));
        i += 1;
    }
    assert(texts(values@).take(values.len() as int) == texts(values@));
}

/// `flag` written before each of `values`.
pub open spec fn flagged(flag: Seq<char>, values: Seq<Seq<char>>) -> Seq<Seq<char>>
    decreases values.len(),
{
    if values.len() == 0 {
        Seq::empty()
    } else {
        flagged(flag, values.drop_last()).push(flag).push(values.last())
    }
}

} // verus!
