//! Tool documentation generated from the tools' metadata: the usage
//! guidelines for the system prompt, the tools to disclose in a context,
//! and a summary by priority.
use vstd::prelude::*;
use crate::text::{debug_quoted, debug_string, decimal, decimal_chars, extend_chars, extend_str, join, string_of, to_uppercase, uppercase_of};
use crate::tools::domain::registry::ToolRegistration;
use crate::tools::domain::tool_metadata::{DisclosurePolicy, ToolExample, ToolMetadata};

verus! {

/// The texts of a list of strings.
pub open spec fn texts(v: Seq<String>) -> Seq<Seq<char>> {
    v.map_values(|s: String| s@)
}

/// A list of strings as `{:?}` shows it: `["a", "b"]`.
pub open spec fn debug_list(v: Seq<String>) -> Seq<char> {
    "["@ + join(v.map_values(|s: String| debug_quoted(s@)), ", "@) + "]"@
}

/// A disclosure policy as `{:?}` shows it.
pub open spec fn disclosure_debug(d: DisclosurePolicy) -> Seq<char> {
    match d {
        DisclosurePolicy::Always => "Always"@,
        DisclosurePolicy::Conditional { context } => "Conditional { context: "@ + debug_list(context@) + " }"@,
        DisclosurePolicy::Sequential { after } => "Sequential { after: "@ + debug_list(after@) + " }"@,
        DisclosurePolicy::Explicit => "Explicit"@,
    }
}

/// The heading of a tool's entry.
pub open spec fn entry_heading(r: ToolRegistration) -> Seq<char> {
    "#### "@ + uppercase_of(r.id@) + " Tool\n"@
}

/// The hint line, when there is a hint.
pub open spec fn hints_line(m: ToolMetadata) -> Seq<char> {
    match m.prompt_hints {
        Some(h) => "- **Use for**: "@ + h@ + "\n"@,
        None => Seq::empty(),
    }
}

/// The example lines.
pub open spec fn example_lines(ex: Seq<ToolExample>) -> Seq<char>
    decreases ex.len(),
{
    if ex.len() == 0 {
        Seq::empty()
    } else {
        example_lines(ex.drop_last()) + "  - "@ + ex.last().description@ + ": "@ + ex.last().outcome@ + "\n"@
    }
}

/// The entry of an always-available tool: heading, hint, tags, related
/// tools and examples (each only when present), and a blank line.
pub open spec fn always_entry(r: ToolRegistration) -> Seq<char> {
    let m = r.metadata;
    entry_heading(r) + hints_line(m) + (if m.tags@.len() > 0 {
        "- **Tags**: "@ + join(texts(m.tags@), ", "@) + "\n"@
    } else {
        Seq::empty()
    }) + (if m.related_tools@.len() > 0 {
        "- **Related tools**: "@ + join(texts(m.related_tools@), ", "@) + "\n"@
    } else {
        Seq::empty()
    }) + (if m.examples@.len() > 0 {
        "- **Examples**:\n"@ + example_lines(m.examples@)
    } else {
        Seq::empty()
    }) + "\n"@
}

/// The entry of a contextually available tool: heading, priority,
/// disclosure policy, hint (when present), and a blank line.
pub open spec fn conditional_entry(r: ToolRegistration) -> Seq<char> {
    entry_heading(r) + "- **Priority**: "@ + decimal(r.metadata.priority as nat) + "\n"@ + "- **Disclosure**: "@
        + disclosure_debug(r.metadata.disclosure) + "\n"@ + hints_line(r.metadata) + "\n"@
}

/// The entries of the tools of `regs` that are always shown (`always`) or
/// not (`!always`), in order.
pub open spec fn entries(regs: Seq<ToolRegistration>, always: bool) -> Seq<char>
    decreases regs.len(),
{
    if regs.len() == 0 {
        Seq::empty()
    } else {
        let r = regs.last();
        entries(regs.drop_last(), always) + if (r.metadata.disclosure is Always) == always {
            if always { always_entry(r) } else { conditional_entry(r) }
        } else {
            Seq::empty()
        }
    }
}

/// Whether some tool of `regs` is always shown (`always`) or not.
pub open spec fn has_kind(regs: Seq<ToolRegistration>, always: bool) -> bool {
    exists|i: int| 0 <= i < regs.len() && ((#[trigger] regs[i]).metadata.disclosure is Always) == always
}

/// The usage guidelines: the always-available tools, then the others,
/// each section only when it has tools.
pub open spec fn tool_docs(regs: Seq<ToolRegistration>) -> Seq<char> {
    "## Tool Usage Guidelines\n\n"@ + (if has_kind(regs, true) {
        "### Always Available\n\n"@ + entries(regs, true)
    } else {
        Seq::empty()
    }) + (if has_kind(regs, false) {
        "### Contextually Available\n\n"@ + "These tools may be available depending on context:\n\n"@ + entries(regs, false)
    } else {
        Seq::empty()
    })
}

/// Whether a tool is disclosed: always-shown tools are; a tool shown after
/// others is once one of those was used; any other one when its priority
/// is at most `max_priority`.
pub open spec fn disclosed(r: ToolRegistration, used: Seq<String>, max_priority: u8) -> bool {
    match r.metadata.disclosure {
        DisclosurePolicy::Always => true,
        DisclosurePolicy::Sequential { after } => exists|i: int, j: int|
            0 <= i < used.len() && 0 <= j < after@.len() && (#[trigger] used[i])@ == (#[trigger] after@[j])@,
        _ => r.metadata.priority <= max_priority,
    }
}

/// The disclosed tools among `regs`, in order.
pub open spec fn disclosed_tools(regs: Seq<ToolRegistration>, used: Seq<String>, max_priority: u8) -> Seq<ToolRegistration>
    decreases regs.len(),
{
    if regs.len() == 0 {
        Seq::empty()
    } else {
        let p = disclosed_tools(regs.drop_last(), used, max_priority);
        if disclosed(regs.last(), used, max_priority) {
            p.push(regs.last())
        } else {
            p
        }
    }
}

/// A summary line: id, priority, and hint (or `Various operations`).
pub open spec fn summary_line(r: ToolRegistration) -> Seq<char> {
    "**"@ + r.id@ + "** (priority: "@ + decimal(r.metadata.priority as nat) + "): "@ + (match r.metadata.prompt_hints {
        Some(h) => h@,
        None => "Various operations"@,
    }) + "\n"@
}

/// The summary lines of tools, in order.
pub open spec fn summary_lines(regs: Seq<ToolRegistration>) -> Seq<char>
    decreases regs.len(),
{
    if regs.len() == 0 {
        Seq::empty()
    } else {
        summary_lines(regs.drop_last()) + summary_line(regs.last())
    }
}

/// The tools are in order of priority.
pub open spec fn by_priority(s: Seq<ToolRegistration>) -> bool {
    forall|i: int, j: int| 0 <= i < j < s.len() ==> (#[trigger] s[i]).metadata.priority <= (#[trigger] s[j]).metadata.priority
}

/// The strings joined with `, `.
fn join_strings(v: &Vec<String>) -> (r: Vec<char>)
    ensures
        r@ == join(texts(v@), ", "@),
{
    let mut r: Vec<char> = Vec::new();
    let mut i: usize = 0;
    while i < v.len()
        invariant
            i <= v@.len(),
            r@ == join(texts(v@).take(i as int), ", "@),
        decreases v.len() - i,
    {
        let ghost t = texts(v@).take(i + 1);
        assert(t.drop_last() =~= texts(v@).take(i as int));
        if i > 0 {
            extend_str(&mut r, ", ");
        }
        extend_str(&mut r, v[i].as_str());
        proof {
            if i == 0 {
                assert(t.len() == 1);
            }
        }
        assert(r@ =~= join(t, ", "@));
        i += 1;
    }
    assert(texts(v@).take(v@.len() as int) =~= texts(v@));
    r
}

/// A list of strings as `{:?}` shows it.
fn debug_list_chars(v: &Vec<String>) -> (r: Vec<char>)
    ensures
        r@ == debug_list(v@),
{
    let ghost q = v@.map_values(|s: String| debug_quoted(s@));
    let mut r: Vec<char> = Vec::new();
    extend_str(&mut r, "[");
    let mut body: Vec<char> = Vec::new();
    let mut i: usize = 0;
    while i < v.len()
        invariant
            i <= v@.len(),
            q == v@.map_values(|s: String| debug_quoted(s@)),
            body@ == join(q.take(i as int), ", "@),
        decreases v.len() - i,
    {
        let ghost t = q.take(i + 1);
        assert(t.drop_last() =~= q.take(i as int));
        if i > 0 {
            extend_str(&mut body, ", ");
        }
        let d = debug_string(v[i].as_str());
        extend_str(&mut body, d.as_str());
        proof {
            if i == 0 {
                assert(t.len() == 1);
            }
        }
        assert(body@ =~= join(t, ", "@));
        i += 1;
    }
    assert(q.take(v@.len() as int) =~= q);
    extend_chars(&mut r, body.as_slice());
    extend_str(&mut r, "]");
    r
}

fn disclosure_debug_chars(d: &DisclosurePolicy) -> (r: Vec<char>)
    ensures
        r@ == disclosure_debug(*d),
{
    let mut r: Vec<char> = Vec::new();
    match d {
        DisclosurePolicy::Always => extend_str(&mut r, "Always"),
        DisclosurePolicy::Conditional { context } => {
            extend_str(&mut r, "Conditional { context: ");
            extend_chars(&mut r, debug_list_chars(context).as_slice());
            extend_str(&mut r, " }");
        },
        DisclosurePolicy::Sequential { after } => {
            extend_str(&mut r, "Sequential { after: ");
            extend_chars(&mut r, debug_list_chars(after).as_slice());
            extend_str(&mut r, " }");
        },
        DisclosurePolicy::Explicit => extend_str(&mut r, "Explicit"),
    }
    r
}

fn push_heading(out: &mut Vec<char>, r: &ToolRegistration)
    ensures
        final(out)@ == old(out)@ + entry_heading(*r),
{
    extend_str(out, "#### ");
    let up = to_uppercase(r.id.as_str());
    extend_str(out, up.as_str());
    extend_str(out, " Tool\n");
}

fn push_hints(out: &mut Vec<char>, m: &ToolMetadata)
    ensures
        final(out)@ == old(out)@ + hints_line(*m),
{
    match &m.prompt_hints {
        Some(h) => {
            extend_str(out, "- **Use for**: ");
            extend_str(out, h.as_str());
            extend_str(out, "\n");
        },
        None => {},
    }
    assert(final(out)@ =~= old(out)@ + hints_line(*m));
}

fn always_entry_chars(r: &ToolRegistration) -> (out: Vec<char>)
    ensures
        out@ == always_entry(*r),
{
    let m = &r.metadata;
    let mut out: Vec<char> = Vec::new();
    push_heading(&mut out, r);
    push_hints(&mut out, m);
    let ghost a = out@;
    if m.tags.len() > 0 {
        extend_str(&mut out, "- **Tags**: ");
        extend_chars(&mut out, join_strings(&m.tags).as_slice());
        extend_str(&mut out, "\n");
    }
    let ghost b = out@;
    if m.related_tools.len() > 0 {
        extend_str(&mut out, "- **Related tools**: ");
        extend_chars(&mut out, join_strings(&m.related_tools).as_slice());
        extend_str(&mut out, "\n");
    }
    let ghost c = out@;
    if m.examples.len() > 0 {
        extend_str(&mut out, "- **Examples**:\n");
        let ghost head = out@;
        let mut k: usize = 0;
        while k < m.examples.len()
            invariant
                k <= m.examples@.len(),
                out@ == head + example_lines(m.examples@.take(k as int)),
            decreases m.examples.len() - k,
        {
            assert(m.examples@.take(k + 1).drop_last() =~= m.examples@.take(k as int));
            extend_str(&mut out, "  - ");
            extend_str(&mut out, m.examples[k].description.as_str());
            extend_str(&mut out, ": ");
            extend_str(&mut out, m.examples[k].outcome.as_str());
            extend_str(&mut out, "\n");
            assert(out@ =~= head + example_lines(m.examples@.take(k + 1)));
            k += 1;
        }
        assert(m.examples@.take(m.examples@.len() as int) =~= m.examples@);
    }
    extend_str(&mut out, "\n");
    assert(out@ =~= always_entry(*r));
    out
}

fn conditional_entry_chars(r: &ToolRegistration) -> (out: Vec<char>)
    ensures
        out@ == conditional_entry(*r),
{
    let mut out: Vec<char> = Vec::new();
    push_heading(&mut out, r);
    extend_str(&mut out, "- **Priority**: ");
    extend_chars(&mut out, decimal_chars(r.metadata.priority as u64).as_slice());
    extend_str(&mut out, "\n");
    extend_str(&mut out, "- **Disclosure**: ");
    extend_chars(&mut out, disclosure_debug_chars(&r.metadata.disclosure).as_slice());
    extend_str(&mut out, "\n");
    push_hints(&mut out, &r.metadata);
    extend_str(&mut out, "\n");
    assert(out@ =~= conditional_entry(*r));
    out
}

/// The entries of the tools of one kind, and whether there was one.
fn entries_chars(regs: &[ToolRegistration], always: bool) -> (r: (Vec<char>, bool))
    ensures
        r.0@ == entries(regs@, always),
        r.1 == has_kind(regs@, always),
{
    let mut out: Vec<char> = Vec::new();
    let mut any = false;
    let mut i: usize = 0;
    while i < regs.len()
        invariant
            i <= regs@.len(),
            out@ == entries(regs@.take(i as int), always),
            any == has_kind(regs@.take(i as int), always),
        decreases regs.len() - i,
    {
        let ghost t = regs@.take(i + 1);
        assert(t.drop_last() =~= regs@.take(i as int));
        let is_always = match regs[i].metadata.disclosure {
            DisclosurePolicy::Always => true,
            _ => false,
        };
        if is_always == always {
            if always {
                extend_chars(&mut out, always_entry_chars(&regs[i]).as_slice());
            } else {
                extend_chars(&mut out, conditional_entry_chars(&regs[i]).as_slice());
            }
            assert(t[i as int] == regs@[i as int]);
            any = true;
        }
        proof {
            if any {
                if has_kind(regs@.take(i as int), always) {
                    let w = choose|w: int| 0 <= w < i && ((#[trigger] regs@.take(i as int)[w]).metadata.disclosure is Always) == always;
                    assert(t[w] == regs@.take(i as int)[w]);
                }
            } else {
                assert forall|w: int| 0 <= w < t.len() implies ((#[trigger] t[w]).metadata.disclosure is Always) != always by {
                    if w < i {
                        assert(t[w] == regs@.take(i as int)[w]);
                    }
                }
            }
        }
        assert(out@ =~= entries(t, always));
        i += 1;
    }
    assert(regs@.take(regs@.len() as int) =~= regs@);
    (out, any)
}

/// The tool usage guidelines for the system prompt (see `tool_docs`).
pub fn generate_tool_docs(registrations: &[ToolRegistration]) -> (r: String)
    ensures
        r@ == tool_docs(registrations@),
{
    let mut docs: Vec<char> = Vec::new();
    extend_str(&mut docs, "## Tool Usage Guidelines\n\n");
    let (a, any_a) = entries_chars(registrations, true);
    if any_a {
        extend_str(&mut docs, "### Always Available\n\n");
        extend_chars(&mut docs, a.as_slice());
    }
    let (c, any_c) = entries_chars(registrations, false);
    if any_c {
        extend_str(&mut docs, "### Contextually Available\n\n");
        extend_str(&mut docs, "These tools may be available depending on context:\n\n");
        extend_chars(&mut docs, c.as_slice());
    }
    assert(docs@ =~= tool_docs(registrations@));
    string_of(docs.as_slice())
}

/// Whether some used tool is among `after`.
fn any_used(used: &[String], after: &Vec<String>) -> (r: bool)
    ensures
        r == exists|i: int, j: int|
            0 <= i < used@.len() && 0 <= j < after@.len() && (#[trigger] used@[i])@ == (#[trigger] after@[j])@,
{
    let mut i: usize = 0;
    while i < used.len()
        invariant
            i <= used@.len(),
            forall|a: int, b: int| 0 <= a < i && 0 <= b < after@.len() ==> (#[trigger] used@[a])@ != (#[trigger] after@[b])@,
        decreases used.len() - i,
    {
        let u = crate::text::chars_of(used[i].as_str());
        let mut j: usize = 0;
        while j < after.len()
            invariant
                i < used@.len(),
                j <= after@.len(),
                u@ == used@[i as int]@,
                forall|a: int, b: int| 0 <= a < i && 0 <= b < after@.len() ==> (#[trigger] used@[a])@ != (#[trigger] after@[b])@,
                forall|b: int| 0 <= b < j ==> used@[i as int]@ != (#[trigger] after@[b])@,
            decreases after.len() - j,
        {
            let x = crate::text::chars_of(after[j].as_str());
            if crate::text::chars_eq(u.as_slice(), x.as_slice()) {
                assert(used@[i as int]@ == after@[j as int]@);
                return true;
            }
            j += 1;
        }
        i += 1;
    }
    false
}

/// The tools to disclose in a context (see `disclosed`), in order.
pub fn filter_tools_by_context<'a>(
    registrations: &'a [ToolRegistration],
    used_tools: &[String],
    max_priority: u8,
) -> (r: Vec<&'a ToolRegistration>)
    ensures
        r@.map_values(|x: &ToolRegistration| *x) == disclosed_tools(registrations@, used_tools@, max_priority),
{
    let mut r: Vec<&'a ToolRegistration> = Vec::new();
    let mut i: usize = 0;
    while i < registrations.len()
        invariant
            i <= registrations@.len(),
            r@.map_values(|x: &ToolRegistration| *x) == disclosed_tools(registrations@.take(i as int), used_tools@, max_priority),
        decreases registrations.len() - i,
    {
        let ghost t = registrations@.take(i + 1);
        assert(t.drop_last() =~= registrations@.take(i as int));
        let reg = &registrations[i];
        let keep = match &reg.metadata.disclosure {
            DisclosurePolicy::Always => true,
            DisclosurePolicy::Sequential { after } => any_used(used_tools, after),
            _ => reg.metadata.priority <= max_priority,
        };
        let ghost before = r@.map_values(|x: &ToolRegistration| *x);
        if keep {
            r.push(reg);
            assert(r@.map_values(|x: &ToolRegistration| *x) =~= before.push(*reg));
        }
        assert(t.last() == *reg);
        i += 1;
    }
    assert(registrations@.take(registrations@.len() as int) =~= registrations@);
    r
}

/// A summary of the tools by priority, lowest first, tools of equal
/// priority in their given order.
pub fn generate_tool_summary(registrations: &[ToolRegistration]) -> (r: String)
    ensures
        exists|sorted: Seq<ToolRegistration>|
            #![trigger sorted.to_multiset()]
            sorted.to_multiset() == registrations@.to_multiset() && by_priority(sorted) && r@ == "## Available Tools\n\n"@
                + summary_lines(sorted),
{
    let ghost orig = registrations@;
    let mut out: Vec<&ToolRegistration> = Vec::new();
    let mut i: usize = 0;
    proof {
        let e = out@.map_values(|x: &ToolRegistration| *x);
        assert(e =~= Seq::<ToolRegistration>::empty());
        assert(orig.take(0) =~= Seq::<ToolRegistration>::empty());
        vstd::seq_lib::to_multiset_len(e);
        assert(e.to_multiset() =~= vstd::multiset::Multiset::empty());
        vstd::seq_lib::to_multiset_len(orig.take(0));
        assert(orig.take(0).to_multiset() =~= vstd::multiset::Multiset::empty());
    }
    while i < registrations.len()
        invariant
            i <= orig.len(),
            orig == registrations@,
            out@.map_values(|x: &ToolRegistration| *x).to_multiset() == orig.take(i as int).to_multiset(),
            by_priority(out@.map_values(|x: &ToolRegistration| *x)),
        decreases registrations.len() - i,
    {
        let x = &registrations[i];
        let mut p: usize = out.len();
        while p > 0 && out[p - 1].metadata.priority > x.metadata.priority
            invariant
                p <= out@.len(),
                forall|k: int| p <= k < out@.len() ==> (#[trigger] out@[k]).metadata.priority > x.metadata.priority,
            decreases p,
        {
            p = p - 1;
        }
        let ghost old_out = out@.map_values(|y: &ToolRegistration| *y);
        let ghost old_raw = out@;
        out.insert(p, x);
        proof {
            let n = out@.map_values(|y: &ToolRegistration| *y);
            assert(n =~= old_out.insert(p as int, *x));
            assert forall|a: int, b: int| 0 <= a < b < n.len() implies (#[trigger] n[a]).metadata.priority <= (#[trigger] n[b]).metadata.priority by {
                if a < p && b < p {
                    assert(n[a] == old_out[a] && n[b] == old_out[b]);
                } else if a < p && b == p {
                    assert(n[a] == old_out[a]);
                    assert(old_raw[p - 1].metadata.priority <= x.metadata.priority);
                } else if a < p && b > p {
                    assert(n[a] == old_out[a] && n[b] == old_out[b - 1]);
                } else if a == p {
                    assert(n[b] == old_out[b - 1]);
                    assert(old_raw[b - 1].metadata.priority > x.metadata.priority);
                } else {
                    assert(n[a] == old_out[a - 1] && n[b] == old_out[b - 1]);
                }
            }
            vstd::seq_lib::to_multiset_insert(old_out, p as int, *x);
            assert(orig.take(i + 1) =~= orig.take(i as int).push(*x));
            assert(orig.take(i as int).push(*x).to_multiset() =~= orig.take(i as int).to_multiset().insert(*x)) by {
                assert(orig.take(i as int).insert(i as int, *x) =~= orig.take(i as int).push(*x));
                vstd::seq_lib::to_multiset_insert(orig.take(i as int), i as int, *x);
            }
        }
        i += 1;
    }
    assert(orig.take(orig.len() as int) =~= orig);
    let ghost sorted = out@.map_values(|y: &ToolRegistration| *y);
    let mut s: Vec<char> = Vec::new();
    extend_str(&mut s, "## Available Tools\n\n");
    let ghost head = s@;
    let mut k: usize = 0;
    while k < out.len()
        invariant
            k <= out@.len(),
            sorted == out@.map_values(|y: &ToolRegistration| *y),
            s@ == head + summary_lines(sorted.take(k as int)),
        decreases out.len() - k,
    {
        assert(sorted.take(k + 1).drop_last() =~= sorted.take(k as int));
        let reg = out[k];
        extend_str(&mut s, "**");
        extend_str(&mut s, reg.id.as_str());
        extend_str(&mut s, "** (priority: ");
        extend_chars(&mut s, decimal_chars(reg.metadata.priority as u64).as_slice());
        extend_str(&mut s, "): ");
        match &reg.metadata.prompt_hints {
            Some(h) => extend_str(&mut s, h.as_str()),
            None => extend_str(&mut s, "Various operations"),
        }
        extend_str(&mut s, "\n");
        assert(sorted.take(k + 1).last() == *reg);
        assert(s@ =~= head + summary_lines(sorted.take(k + 1)));
        k += 1;
    }
    assert(sorted.take(out@.len() as int) =~= sorted);
    string_of(s.as_slice())
}

} // verus!
