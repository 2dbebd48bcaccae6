//! Collecting the command sequence: each positional argument in order,
//! with the sentinel argument `-` standing for the lines read from
//! standard input.

use vstd::prelude::*;

verus! {

/// The expanded command sequence.  The first sentinel is replaced by the
/// standard-input lines, in order; a later sentinel by nothing, since
/// standard input is exhausted after the first.
pub open spec fn spec_expand(args: Seq<Seq<char>>, lines: Seq<Seq<char>>) -> Seq<Seq<char>>
    decreases args.len(),
{
    if args.len() == 0 {
        Seq::empty()
    } else if args.first() == "-"@ {
        lines + spec_expand(args.drop_first(), Seq::empty())
    } else {
        seq![args.first()] + spec_expand(args.drop_first(), lines)
    }
}

/// Expands the positional arguments into the command sequence, given the
/// lines that standard input yields.
pub fn expand_commands(args: &Vec<String>, lines: &Vec<String>) -> (r: Vec<String>)
    ensures
        r.deep_view() == spec_expand(args.deep_view(), lines.deep_view()),
{
    let dash = String::from_str("-");
    let mut r: Vec<String> = Vec::new();
    let mut used_stdin = false;
    let mut i: usize = 0;
    proof {
        assert(r.deep_view() =~= Seq::<Seq<char>>::empty());
        assert(args.deep_view().skip(0) =~= args.deep_view());
        assert(Seq::<Seq<char>>::empty() + spec_expand(args.deep_view(), lines.deep_view())
            =~= spec_expand(args.deep_view(), lines.deep_view()));
    }
    while i < args.len()
        invariant
            i <= args.len(),
            dash@ == "-"@,
            r.deep_view() + spec_expand(
                args.deep_view().skip(i as int),
                if used_stdin {
                    Seq::<Seq<char>>::empty()
                } else {
                    lines.deep_view()
                },
            ) == spec_expand(args.deep_view(), lines.deep_view()),
        decreases args.len() - i,
    {
        let ghost pending: Seq<Seq<char>> = if used_stdin {
            Seq::empty()
        } else {
            lines.deep_view()
        };
        let ghost r0 = r.deep_view();
        proof {
            assert(args.deep_view().skip(i as int).first() == args.deep_view()[i as int]);
            assert(args.deep_view().skip(i as int).drop_first() =~= args.deep_view().skip(
                i as int + 1,
            ));
        }
        let a = &args[i];
        if *a == dash {
            if !used_stdin {
                let mut j: usize = 0;
                while j < lines.len()
                    invariant
                        j <= lines.len(),
                        r.deep_view() == r0 + lines.deep_view().take(j as int),
                    decreases lines.len() - j,
                {
                    let ghost vpre = r@;
                    let ghost dpre = r.deep_view();
                    let line = lines[j].clone();
                    r.push(line);
                    proof {
                        assert(r@ == vpre.push(line));
                        assert forall|k: int| 0 <= k < r.deep_view().len() implies r.deep_view()[k]
                            == dpre.push(line@)[k] by {
                            if k < vpre.len() {
                                assert(r@[k] == vpre[k]);
                                assert(dpre[k] == vpre[k]@);
                            } else {
                                assert(r@[k] == line);
                            }
                        }
                        assert(r.deep_view() =~= dpre.push(line@));
                        assert(line@ == lines.deep_view()[j as int]);
                        assert(r.deep_view() =~= r0 + lines.deep_view().take(j as int + 1));
                    }
                    j = j + 1;
                }
                used_stdin = true;
                proof {
                    assert(lines.deep_view().take(lines.len() as int) =~= lines.deep_view());
                }
            }
            proof {
                assert(r.deep_view() =~= r0 + pending);
                assert(r.deep_view() + spec_expand(
                    args.deep_view().skip(i as int + 1),
                    Seq::<Seq<char>>::empty(),
                ) =~= r0 + spec_expand(args.deep_view().skip(i as int), pending));
            }
        } else {
            let ghost vpre = r@;
            let copied = a.clone();
            r.push(copied);
            proof {
                assert(r@ == vpre.push(copied));
                assert forall|k: int| 0 <= k < r.deep_view().len() implies r.deep_view()[k]
                    == r0.push(copied@)[k] by {
                    if k < vpre.len() {
                        assert(r@[k] == vpre[k]);
                        assert(r0[k] == vpre[k]@);
                    } else {
                        assert(r@[k] == copied);
                    }
                }
                assert(r.deep_view() =~= r0.push(args.deep_view()[i as int]));
                assert(r.deep_view() + spec_expand(
                    args.deep_view().skip(i as int + 1),
                    pending,
                ) =~= r0 + spec_expand(args.deep_view().skip(i as int), pending));
            }
        }
        i = i + 1;
    }
    proof {
        assert(args.deep_view().skip(args.len() as int) =~= Seq::<Seq<char>>::empty());
        assert(r.deep_view() + spec_expand(
            Seq::<Seq<char>>::empty(),
            if used_stdin {
                Seq::<Seq<char>>::empty()
            } else {
                lines.deep_view()
            },
        ) =~= r.deep_view());
    }
    r
}

} // verus!
