use vstd::prelude::*;
use vstd::string::StringExecFns;

verus! {

/// The views of the recognized lines, in order, with every entry the
/// engine could not recognize removed.
pub open spec fn kept_lines(lines: Seq<Option<String>>) -> Seq<Seq<char>>
    decreases lines.len(),
{
    if lines.len() == 0 {
        Seq::empty()
    } else {
        match lines.last() {
            Some(line) => kept_lines(lines.drop_last()).push(line@),
            None => kept_lines(lines.drop_last()),
        }
    }
}

/// The lines joined with a single newline between neighbours: no
/// separator before the first line or after the last, and no lines at all
/// yield the empty text.
pub open spec fn joined(lines: Seq<Seq<char>>) -> Seq<char>
    decreases lines.len(),
{
    if lines.len() == 0 {
        Seq::empty()
    } else if lines.len() == 1 {
        lines[0]
    } else {
        joined(lines.drop_last()) + seq!['\n'] + lines.last()
    }
}

/// Join the lines the engine recognized with single newlines, silently
/// dropping every region it could not recognize rather than failing.
pub fn join_recognized(lines: &Vec<Option<String>>) -> (r: String)
    ensures
        r@ == joined(kept_lines(lines@)),
{
    let mut out = String::new();
    let mut started = false;
    let mut i: usize = 0;
    while i < lines.len()
        invariant
            i <= lines@.len(),
            started == (kept_lines(lines@.take(i as int)).len() > 0),
            out@ == joined(kept_lines(lines@.take(i as int))),
        decreases lines@.len() - i,
    {
        let ghost before = lines@.take(i as int);
        proof {
            assert(lines@.take(i + 1).drop_last() =~= before);
            assert(lines@.take(i + 1).last() == lines@[i as int]);
        }
        match &lines[i] {
            Some(line) => {
                let ghost kept = kept_lines(before);
                proof {
                    assert(kept_lines(lines@.take(i + 1)) == kept.push(line@));
                    assert(kept.push(line@).drop_last() =~= kept);
                    reveal_strlit("\n");
                }
                if started {
                    out.append("\n");
                    proof {
                        assert("\n"@ =~= seq!['\n']);
                    }
                } else {
                    proof {
                        assert(kept.push(line@).len() == 1);
                        assert(kept.push(line@)[0] == line@);
                    }
                }
                out.append(line.as_str());
                started = true;
            },
            None => {},
        }
        i += 1;
    }
    proof {
        assert(lines@.take(lines@.len() as int) =~= lines@);
    }
    out
}

} // verus!
