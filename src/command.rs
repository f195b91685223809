use vstd::prelude::*;

verus! {

/// The character sequences of a list of strings.
pub open spec fn strings_view(v: Seq<String>) -> Seq<Seq<char>> {
    v.map_values(|s: String| s@)
}

/// The pieces of `s` between single spaces: always at least one, and two
/// spaces in a row give an empty piece. No quoting is understood.
pub open spec fn split_spaces(s: Seq<char>) -> Seq<Seq<char>>
    decreases s.len(),
{
    if s.len() == 0 {
        seq![Seq::empty()]
    } else {
        let rest = split_spaces(s.drop_last());
        if s.last() == ' ' {
            rest.push(Seq::empty())
        } else {
            rest.drop_last().push(rest.last().push(s.last()))
        }
    }
}

/// The program a command line names: its first piece.
pub open spec fn program_of(command: Seq<char>) -> Seq<char> {
    split_spaces(command)[0]
}

/// The arguments of a command line: the pieces after the first.
pub open spec fn args_of(command: Seq<char>) -> Seq<Seq<char>> {
    split_spaces(command).drop_first()
}

/// Splits a command line on single spaces into the program name and its
/// arguments.
pub fn split_command(command: &str) -> (r: (String, Vec<String>))
    ensures
        r.0@ == program_of(command@),
        strings_view(r.1@) == args_of(command@),
{
    let n: usize = command.unicode_len();
    let mut pieces: Vec<String> = Vec::new();
    let mut cur = String::new();
    let mut i: usize = 0;
    proof {
        reveal_strlit(" ");
    }
    while i < n
        invariant
            n == command@.len(),
            i <= n,
            strings_view(pieces@).push(cur@) == split_spaces(command@.take(i as int)),
        decreases n - i,
    {
        let ghost old_pieces = pieces@;
        let ghost old_cur = cur@;
        assert(command@.take(i + 1).drop_last() == command@.take(i as int));
        if command.get_char(i) == ' ' {
            pieces.push(cur);
            cur = String::new();
            assert(strings_view(pieces@) == strings_view(old_pieces).push(old_cur));
        } else {
            cur.append(command.substring_char(i, i + 1));
            assert(cur@ == old_cur.push(command@[i as int]));
        }
        i = i + 1;
    }
    assert(command@.take(n as int) == command@);
    let ghost before = pieces@;
    pieces.push(cur);
    assert(strings_view(pieces@) == strings_view(before).push(cur@));
    let program = pieces.remove(0);
    assert(strings_view(pieces@) == split_spaces(command@).drop_first());
    (program, pieces)
}

} // verus!
