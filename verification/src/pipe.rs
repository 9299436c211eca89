use vstd::prelude::*;
use vstd::string::StringExecFns;

verus! {

/// The single pipe-mode message: every input line followed by one newline,
/// concatenated in input order.
pub open spec fn joined_with_newlines(lines: Seq<Seq<char>>) -> Seq<char>
    decreases lines.len(),
{
    if lines.len() == 0 {
        seq![]
    } else {
        lines.first() + seq!['\n'] + joined_with_newlines(lines.drop_first())
    }
}

/// Reassembles the lines read from standard input into the one message a
/// pipe-mode invocation forwards: each line, in order, followed by a
/// newline.
pub fn assemble_message(lines: &Vec<String>) -> (r: String)
    ensures
        r@ == joined_with_newlines(lines.deep_view()),
{
    let mut message = String::new();
    let mut i: usize = 0;
    let n = lines.len();
    proof {
        assert(lines.deep_view().skip(0) =~= lines.deep_view());
        assert(Seq::<char>::empty() + joined_with_newlines(lines.deep_view())
            =~= joined_with_newlines(lines.deep_view()));
    }
    while i < n
        invariant
            i <= n,
            n == lines@.len(),
            joined_with_newlines(lines.deep_view()) == message@ + joined_with_newlines(
                lines.deep_view().skip(i as int),
            ),
        decreases n - i,
    {
        proof {
            assert(lines.deep_view().skip(i as int).first() == lines@[i as int]@);
            assert(lines.deep_view().skip(i as int).drop_first() =~= lines.deep_view().skip(
                i as int + 1,
            ));
        }
        let ghost pre = message@;
        let line: &String = &lines[i];
        message.append(line.as_str());
        message.append("\n");
        i = i + 1;
        proof {
            reveal_strlit("\n");
            assert("\n"@ =~= seq!['\n']);
            assert(message@ + joined_with_newlines(lines.deep_view().skip(i as int)) =~= pre
                + joined_with_newlines(lines.deep_view().skip(i as int - 1)));
        }
    }
    proof {
        assert(lines.deep_view().skip(n as int) =~= Seq::<Seq<char>>::empty());
        assert(message@ + Seq::<char>::empty() =~= message@);
    }
    message
}

} // verus!
