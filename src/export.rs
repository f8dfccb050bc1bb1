use vstd::prelude::*;

verus! {

/// The lines `export NAME=value`, one per pair, in order.
pub open spec fn export_lines(exports: Seq<(Seq<char>, Seq<char>)>) -> Seq<char>
    decreases exports.len(),
{
    if exports.len() == 0 {
        Seq::empty()
    } else {
        export_lines(exports.drop_last()) + "export "@ + exports.last().0 + "="@
            + exports.last().1 + "\n"@
    }
}

/// The lines `<prefix>NAME<suffix>`, one per name, in order.
pub open spec fn wrapped_lines(names: Seq<Seq<char>>, prefix: Seq<char>, suffix: Seq<char>) -> Seq<char>
    decreases names.len(),
{
    if names.len() == 0 {
        Seq::empty()
    } else {
        wrapped_lines(names.drop_last(), prefix, suffix) + prefix + names.last() + suffix
    }
}

/// The views of a sequence of string slices.
pub open spec fn str_views(v: Seq<&str>) -> Seq<Seq<char>> {
    v.map_values(|s: &str| s@)
}

/// The views of a sequence of named values.
pub open spec fn pair_views(v: Seq<(&str, String)>) -> Seq<(Seq<char>, Seq<char>)> {
    v.map_values(|p: (&str, String)| (p.0@, p.1@))
}

/// The shell snippet that exports, then unsets, then echoes.
pub open spec fn rc_text(
    exports: Seq<(Seq<char>, Seq<char>)>,
    unset: Seq<Seq<char>>,
    messages: Seq<Seq<char>>,
) -> Seq<char> {
    export_lines(exports) + wrapped_lines(unset, "unset "@, "\n"@) + wrapped_lines(
        messages,
        "echo '"@,
        "'\n"@,
    )
}

fn append_wrapped(out: &mut String, names: &Vec<&str>, prefix: &str, suffix: &str)
    ensures
        final(out)@ == old(out)@ + wrapped_lines(str_views(names@), prefix@, suffix@),
{
    let ghost start = out@;
    let mut i: usize = 0;
    while i < names.len()
        invariant
            i <= names.len(),
            out@ == start + wrapped_lines(str_views(names@.subrange(0, i as int)), prefix@, suffix@),
        decreases names.len() - i,
    {
        proof {
            let pre = names@.subrange(0, i as int);
            let next = names@.subrange(0, i + 1);
            assert(str_views(next).drop_last() == str_views(pre));
            assert(str_views(next).last() == names@[i as int]@);
        }
        out.append(prefix);
        out.append(names[i]);
        out.append(suffix);
        i = i + 1;
        assert(out@ =~= start + wrapped_lines(str_views(names@.subrange(0, i as int)), prefix@, suffix@));
    }
    assert(names@.subrange(0, names.len() as int) == names@);
}

/// Builds a shell snippet: an `export` line for each pair, then an `unset`
/// line for each name, then an `echo` line for each message.
pub fn rc(exports: Vec<(&str, String)>, unset: Vec<&str>, messages: Vec<&str>) -> (r: String)
    ensures
        r@ == rc_text(pair_views(exports@), str_views(unset@), str_views(messages@)),
{
    let mut ret = String::new();
    let mut i: usize = 0;
    while i < exports.len()
        invariant
            i <= exports.len(),
            ret@ == export_lines(pair_views(exports@.subrange(0, i as int))),
        decreases exports.len() - i,
    {
        proof {
            let pre = exports@.subrange(0, i as int);
            let next = exports@.subrange(0, i + 1);
            assert(pair_views(next).drop_last() == pair_views(pre));
        }
        ret.append("export ");
        ret.append(exports[i].0);
        ret.append("=");
        ret.append(exports[i].1.as_str());
        ret.append("\n");
        i = i + 1;
    }
    assert(exports@.subrange(0, exports.len() as int) == exports@);
    append_wrapped(&mut ret, &unset, "unset ", "\n");
    append_wrapped(&mut ret, &messages, "echo '", "'\n");
    ret
}

} // verus!
