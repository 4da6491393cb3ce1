//! Listings of the enabled instructions.
//!
//! Two orders are in use and are kept apart on purpose. The listing that a
//! category filter narrows, like the global section of a composed prompt,
//! follows the snapshot. The combined documents follow priority, highest
//! first, and among equal priorities the snapshot.

use vstd::prelude::*;
use vstd::string::StringExecFns;

use crate::models::category_text;
use crate::models::category_to_string;
use crate::models::instruction_views;
use crate::models::Instruction;
use crate::models::InstructionView;
use crate::text::lowercase;
use crate::text::nat_text;
use crate::text::str_eq;
use crate::text::to_lowercase;
use crate::text::u8_text;

verus! {

// ---------------------------------------------------------------------------
// Priority order
// ---------------------------------------------------------------------------

/// The positions, among the first `n` instructions, of the enabled ones
/// whose priority is `p`, in snapshot order.
pub open spec fn ranked_at(instructions: Seq<InstructionView>, p: int, n: nat) -> Seq<int>
    decreases n,
{
    if n == 0 {
        Seq::empty()
    } else if instructions[n - 1].enabled && instructions[n - 1].priority == p {
        ranked_at(instructions, p, (n - 1) as nat).push(n - 1)
    } else {
        ranked_at(instructions, p, (n - 1) as nat)
    }
}

/// The positions of the enabled instructions whose priority is at least
/// `lo`: higher priorities first, equal priorities in snapshot order.
pub open spec fn ranked_from(instructions: Seq<InstructionView>, lo: int) -> Seq<int>
    decreases 256 - lo,
{
    if lo > 255 {
        Seq::empty()
    } else {
        ranked_from(instructions, lo + 1) + ranked_at(instructions, lo, instructions.len())
    }
}

/// The positions of all enabled instructions by descending priority, equal
/// priorities in snapshot order.
pub open spec fn priority_order(instructions: Seq<InstructionView>) -> Seq<int> {
    ranked_from(instructions, 0)
}

/// Whether `order` lists exactly the enabled instructions, each once, by
/// descending priority, and keeps the snapshot order among equal priorities.
pub open spec fn is_stable_priority_order(instructions: Seq<InstructionView>, order: Seq<int>) -> bool {
    &&& forall|k: int|
        0 <= k < order.len() ==> 0 <= #[trigger] order[k] < instructions.len()
            && instructions[order[k]].enabled
    &&& forall|j: int|
        0 <= j < instructions.len() && (#[trigger] instructions[j]).enabled ==> order.contains(j)
    &&& forall|a: int, b: int|
        0 <= a < b < order.len() ==> instructions[#[trigger] order[a]].priority
            > instructions[#[trigger] order[b]].priority || (instructions[order[a]].priority
            == instructions[order[b]].priority && order[a] < order[b])
}

proof fn lemma_ranked_at(instructions: Seq<InstructionView>, p: int, n: nat)
    requires
        n <= instructions.len(),
    ensures
        forall|k: int|
            0 <= k < ranked_at(instructions, p, n).len() ==> {
                let i = #[trigger] ranked_at(instructions, p, n)[k];
                0 <= i < n && instructions[i].enabled && instructions[i].priority == p
            },
        forall|a: int, b: int|
            0 <= a < b < ranked_at(instructions, p, n).len() ==> #[trigger] ranked_at(
                instructions,
                p,
                n,
            )[a] < #[trigger] ranked_at(instructions, p, n)[b],
        forall|j: int|
            0 <= j < n && (#[trigger] instructions[j]).enabled && instructions[j].priority == p
                ==> ranked_at(instructions, p, n).contains(j),
    decreases n,
{
    if n > 0 {
        let rest = ranked_at(instructions, p, (n - 1) as nat);
        lemma_ranked_at(instructions, p, (n - 1) as nat);
        let all = ranked_at(instructions, p, n);
        if instructions[n - 1].enabled && instructions[n - 1].priority == p {
            assert(all[rest.len() as int] == n - 1);
            assert forall|j: int|
                0 <= j < n && (#[trigger] instructions[j]).enabled && instructions[j].priority
                    == p implies all.contains(j) by {
                if j < n - 1 {
                    let k = choose|k: int| 0 <= k < rest.len() && rest[k] == j;
                    assert(all[k] == j);
                }
            }
        }
    }
}

proof fn lemma_ranked_from(instructions: Seq<InstructionView>, lo: int)
    requires
        0 <= lo,
    ensures
        forall|k: int|
            0 <= k < ranked_from(instructions, lo).len() ==> {
                let i = #[trigger] ranked_from(instructions, lo)[k];
                0 <= i < instructions.len() && instructions[i].enabled && instructions[i].priority
                    >= lo
            },
        forall|a: int, b: int|
            0 <= a < b < ranked_from(instructions, lo).len() ==> {
                let x = #[trigger] ranked_from(instructions, lo)[a];
                let y = #[trigger] ranked_from(instructions, lo)[b];
                instructions[x].priority > instructions[y].priority || (instructions[x].priority
                    == instructions[y].priority && x < y)
            },
        forall|j: int|
            0 <= j < instructions.len() && (#[trigger] instructions[j]).enabled
                && instructions[j].priority >= lo ==> ranked_from(instructions, lo).contains(j),
    decreases 256 - lo,
{
    if lo <= 255 {
        let high = ranked_from(instructions, lo + 1);
        let here = ranked_at(instructions, lo, instructions.len());
        let all = ranked_from(instructions, lo);
        lemma_ranked_from(instructions, lo + 1);
        lemma_ranked_at(instructions, lo, instructions.len());
        assert forall|k: int| 0 <= k < all.len() implies {
            let i = #[trigger] all[k];
            0 <= i < instructions.len() && instructions[i].enabled && instructions[i].priority
                >= lo
        } by {}
        assert forall|a: int, b: int| 0 <= a < b < all.len() implies {
            let x = #[trigger] all[a];
            let y = #[trigger] all[b];
            instructions[x].priority > instructions[y].priority || (instructions[x].priority
                == instructions[y].priority && x < y)
        } by {}
        assert forall|j: int|
            0 <= j < instructions.len() && (#[trigger] instructions[j]).enabled
                && instructions[j].priority >= lo implies all.contains(j) by {
            if instructions[j].priority == lo {
                let k = choose|k: int| 0 <= k < here.len() && here[k] == j;
                assert(all[high.len() + k] == j);
            } else {
                let k = choose|k: int| 0 <= k < high.len() && high[k] == j;
                assert(all[k] == j);
            }
        }
    }
}

/// The priority order lists exactly the enabled instructions, the more
/// important first, and never swaps two instructions of equal priority.
pub proof fn lemma_priority_order_is_stable(instructions: Seq<InstructionView>)
    ensures
        is_stable_priority_order(instructions, priority_order(instructions)),
{
    lemma_ranked_from(instructions, 0);
}

/// Whether an exec list of positions holds the given positions.
pub open spec fn same_positions(v: Seq<usize>, order: Seq<int>) -> bool {
    &&& v.len() == order.len()
    &&& forall|k: int| 0 <= k < v.len() ==> #[trigger] v[k] as int == order[k]
}

/// The positions of the enabled instructions by descending priority, equal
/// priorities in snapshot order.
pub fn by_priority(instructions: &Vec<Instruction>) -> (r: Vec<usize>)
    ensures
        same_positions(r@, priority_order(instruction_views(instructions@))),
        forall|k: int| 0 <= k < r@.len() ==> #[trigger] r@[k] < instructions.len(),
{
    let ghost views = instruction_views(instructions@);
    let mut out: Vec<usize> = Vec::new();
    let mut lo: u16 = 256;
    while lo > 0
        invariant
            lo <= 256,
            views == instruction_views(instructions@),
            same_positions(out@, ranked_from(views, lo as int)),
            forall|k: int| 0 <= k < out@.len() ==> #[trigger] out@[k] < instructions.len(),
        decreases lo,
    {
        lo -= 1;
        let ghost high = out@;
        let mut k: usize = 0;
        while k < instructions.len()
            invariant
                k <= instructions.len(),
                lo < 256,
                views == instruction_views(instructions@),
                same_positions(high, ranked_from(views, lo + 1)),
                same_positions(out@, ranked_from(views, lo + 1) + ranked_at(views, lo as int, k as nat)),
                forall|j: int| 0 <= j < out@.len() ==> #[trigger] out@[j] < instructions.len(),
            decreases instructions.len() - k,
        {
            if instructions[k].enabled && instructions[k].priority as u16 == lo {
                out.push(k);
            }
            k += 1;
        }
    }
    out
}

// ---------------------------------------------------------------------------
// The combined documents, in priority order
// ---------------------------------------------------------------------------

/// One instruction of the instructions document: heading with priority,
/// category, content, and a rule.
pub open spec fn markdown_block(i: InstructionView) -> Seq<char> {
    "## "@ + i.icon_emoji + " "@ + i.name + " (Priority: "@ + nat_text(i.priority as nat) + ")\n"@
        + "*Category: "@ + category_text(i.category) + "*\n\n"@ + i.content + "\n\n---\n\n"@
}

/// The blocks of the first `n` positions of `order`.
pub open spec fn markdown_blocks(instructions: Seq<InstructionView>, order: Seq<int>, n: nat) -> Seq<
    char,
>
    decreases n,
{
    if n == 0 {
        Seq::empty()
    } else {
        markdown_blocks(instructions, order, (n - 1) as nat) + markdown_block(
            instructions[order[n - 1]],
        )
    }
}

/// The instructions document: every enabled instruction, in priority order,
/// under a title; a fixed sentence if none is enabled.
pub open spec fn instructions_markdown(instructions: Seq<InstructionView>) -> Seq<char> {
    let order = priority_order(instructions);
    if order.len() == 0 {
        "No instructions enabled."@
    } else {
        "# Prompt Forge Instructions\n\n"@ + markdown_blocks(instructions, order, order.len())
    }
}

fn markdown_text(instruction: &Instruction) -> (r: String)
    ensures
        r@ == markdown_block(instruction@),
{
    let mut r = String::from_str("## ");
    r.append(instruction.icon_emoji.as_str());
    r.append(" ");
    r.append(instruction.name.as_str());
    r.append(" (Priority: ");
    let p = u8_text(instruction.priority);
    r.append(p.as_str());
    r.append(")\n");
    r.append("*Category: ");
    r.append(category_to_string(&instruction.category));
    r.append("*\n\n");
    r.append(instruction.content.as_str());
    r.append("\n\n---\n\n");
    r
}

/// Renders the instructions document.
pub fn render_instructions_markdown(instructions: &Vec<Instruction>) -> (r: String)
    ensures
        r@ == instructions_markdown(instruction_views(instructions@)),
{
    let order = by_priority(instructions);
    if order.len() == 0 {
        return String::from_str("No instructions enabled.");
    }
    let ghost views = instruction_views(instructions@);
    let ghost spec_order = priority_order(views);
    let mut body = String::new();
    let mut k: usize = 0;
    while k < order.len()
        invariant
            k <= order.len(),
            views == instruction_views(instructions@),
            same_positions(order@, spec_order),
            forall|j: int| 0 <= j < order@.len() ==> #[trigger] order@[j] < instructions.len(),
            body@ == markdown_blocks(views, spec_order, k as nat),
        decreases order.len() - k,
    {
        let block = markdown_text(&instructions[order[k]]);
        body.append(block.as_str());
        k += 1;
    }
    let mut r = String::from_str("# Prompt Forge Instructions\n\n");
    r.append(body.as_str());
    r
}

/// One instruction of the combined text: its name as a heading, then its
/// content.
pub open spec fn combined_block(i: InstructionView) -> Seq<char> {
    "## "@ + i.name + "\n"@ + i.content
}

/// The blocks of the first `n` positions of `order`, with a rule between
/// neighbours.
pub open spec fn combined_blocks(instructions: Seq<InstructionView>, order: Seq<int>, n: nat) -> Seq<
    char,
>
    decreases n,
{
    if n == 0 {
        Seq::empty()
    } else if n == 1 {
        combined_block(instructions[order[0]])
    } else {
        combined_blocks(instructions, order, (n - 1) as nat) + "\n\n---\n\n"@ + combined_block(
            instructions[order[n - 1]],
        )
    }
}

/// The combined text: every enabled instruction, in priority order, with a
/// rule between neighbours; empty if none is enabled.
pub open spec fn combined_instructions(instructions: Seq<InstructionView>) -> Seq<char> {
    let order = priority_order(instructions);
    combined_blocks(instructions, order, order.len())
}

fn combined_text(instruction: &Instruction) -> (r: String)
    ensures
        r@ == combined_block(instruction@),
{
    let mut r = String::from_str("## ");
    r.append(instruction.name.as_str());
    r.append("\n");
    r.append(instruction.content.as_str());
    r
}

/// All enabled instructions combined into one text, the more important
/// first.
pub fn get_all_enabled_instructions(instructions: &Vec<Instruction>) -> (r: String)
    ensures
        r@ == combined_instructions(instruction_views(instructions@)),
{
    let order = by_priority(instructions);
    let ghost views = instruction_views(instructions@);
    let ghost spec_order = priority_order(views);
    let mut r = String::new();
    let mut k: usize = 0;
    while k < order.len()
        invariant
            k <= order.len(),
            views == instruction_views(instructions@),
            same_positions(order@, spec_order),
            forall|j: int| 0 <= j < order@.len() ==> #[trigger] order@[j] < instructions.len(),
            r@ == combined_blocks(views, spec_order, k as nat),
        decreases order.len() - k,
    {
        let block = combined_text(&instructions[order[k]]);
        if k > 0 {
            r.append("\n\n---\n\n");
        }
        r.append(block.as_str());
        k += 1;
    }
    r
}

// ---------------------------------------------------------------------------
// The filtered listing, in snapshot order
// ---------------------------------------------------------------------------

/// Whether an instruction is listed when the category with the token
/// `wanted` is asked for: it is enabled and, if a token is given, the token
/// is that of its category.
pub open spec fn is_listed(i: InstructionView, wanted: Option<Seq<char>>) -> bool {
    i.enabled && match wanted {
        Some(token) => category_text(i.category) == token,
        None => true,
    }
}

/// One instruction of the listing: heading with priority, category, content,
/// and a rule.
pub open spec fn listing_block(i: InstructionView) -> Seq<char> {
    "## "@ + i.icon_emoji + " "@ + i.name + " (Priority: "@ + nat_text(i.priority as nat) + ")\n"@
        + "Category: "@ + category_text(i.category) + "\n\n"@ + i.content + "\n\n---\n\n"@
}

/// The blocks of the listed instructions among the first `n`, in snapshot
/// order.
pub open spec fn listing_blocks(
    instructions: Seq<InstructionView>,
    wanted: Option<Seq<char>>,
    n: nat,
) -> Seq<char>
    decreases n,
{
    if n == 0 {
        Seq::empty()
    } else if is_listed(instructions[n - 1], wanted) {
        listing_blocks(instructions, wanted, (n - 1) as nat) + listing_block(instructions[n - 1])
    } else {
        listing_blocks(instructions, wanted, (n - 1) as nat)
    }
}

/// Whether one of the first `n` instructions is listed.
pub open spec fn any_listed(instructions: Seq<InstructionView>, wanted: Option<Seq<char>>, n: nat) -> bool
    decreases n,
{
    if n == 0 {
        false
    } else {
        is_listed(instructions[n - 1], wanted) || any_listed(instructions, wanted, (n - 1) as nat)
    }
}

/// The listing for a category token: the listed instructions in snapshot
/// order, or a fixed sentence if there is none.
pub open spec fn listing(instructions: Seq<InstructionView>, wanted: Option<Seq<char>>) -> Seq<
    char,
> {
    if any_listed(instructions, wanted, instructions.len()) {
        listing_blocks(instructions, wanted, instructions.len())
    } else {
        "No instructions found."@
    }
}

/// The token that a category filter asks for: the filter in lower case.
pub open spec fn wanted_token(filter: Option<Seq<char>>) -> Option<Seq<char>> {
    match filter {
        Some(c) => Some(lowercase(c)),
        None => None,
    }
}

/// The listing for a category filter, which names a category without regard
/// to case.
pub open spec fn instructions_listing(
    instructions: Seq<InstructionView>,
    filter: Option<Seq<char>>,
) -> Seq<char> {
    listing(instructions, wanted_token(filter))
}

fn listing_text(instruction: &Instruction) -> (r: String)
    ensures
        r@ == listing_block(instruction@),
{
    let mut r = String::from_str("## ");
    r.append(instruction.icon_emoji.as_str());
    r.append(" ");
    r.append(instruction.name.as_str());
    r.append(" (Priority: ");
    let p = u8_text(instruction.priority);
    r.append(p.as_str());
    r.append(")\n");
    r.append("Category: ");
    r.append(category_to_string(&instruction.category));
    r.append("\n\n");
    r.append(instruction.content.as_str());
    r.append("\n\n---\n\n");
    r
}

/// The view of an optional text.
pub open spec fn option_text(o: Option<&str>) -> Option<Seq<char>> {
    match o {
        Some(s) => Some(s@),
        None => None,
    }
}

/// Renders the listing of the enabled instructions whose category has the
/// token `wanted`, or of all enabled instructions without a token. The token
/// is compared as it is, character by character.
pub fn list_instructions(instructions: &Vec<Instruction>, wanted: Option<&str>) -> (r: String)
    ensures
        r@ == listing(instruction_views(instructions@), option_text(wanted)),
{
    let ghost views = instruction_views(instructions@);
    let ghost w = option_text(wanted);
    let mut body = String::new();
    let mut any = false;
    let mut k: usize = 0;
    while k < instructions.len()
        invariant
            k <= instructions.len(),
            views == instruction_views(instructions@),
            w == option_text(wanted),
            body@ == listing_blocks(views, w, k as nat),
            any == any_listed(views, w, k as nat),
        decreases instructions.len() - k,
    {
        let listed = instructions[k].enabled && match wanted {
            Some(token) => str_eq(category_to_string(&instructions[k].category), token),
            None => true,
        };
        if listed {
            let block = listing_text(&instructions[k]);
            body.append(block.as_str());
            any = true;
        }
        k += 1;
    }
    if any {
        body
    } else {
        String::from_str("No instructions found.")
    }
}

/// Renders the listing of the enabled instructions of one category, or of
/// all categories without a filter. The filter names the category without
/// regard to case.
pub fn render_instructions_listing(instructions: &Vec<Instruction>, filter: Option<&str>) -> (r:
    String)
    ensures
        r@ == instructions_listing(instruction_views(instructions@), option_text(filter)),
{
    match filter {
        Some(c) => {
            let token = to_lowercase(c);
            list_instructions(instructions, Some(token.as_str()))
        },
        None => list_instructions(instructions, None),
    }
}

/// A token that is the token of no enabled instruction yields the fixed
/// sentence.
pub proof fn lemma_listing_without_match(
    instructions: Seq<InstructionView>,
    wanted: Option<Seq<char>>,
)
    requires
        forall|k: int| 0 <= k < instructions.len() ==> !is_listed(#[trigger] instructions[k], wanted),
    ensures
        listing(instructions, wanted) == "No instructions found."@,
{
    lemma_none_listed(instructions, wanted, instructions.len());
}

/// A category filter that matches no enabled instruction yields the fixed
/// sentence, however the filter is written.
pub proof fn lemma_filter_without_match(
    instructions: Seq<InstructionView>,
    filter: Option<Seq<char>>,
)
    requires
        forall|k: int|
            0 <= k < instructions.len() ==> !is_listed(
                #[trigger] instructions[k],
                wanted_token(filter),
            ),
    ensures
        instructions_listing(instructions, filter) == "No instructions found."@,
{
    lemma_none_listed(instructions, wanted_token(filter), instructions.len());
}

proof fn lemma_none_listed(instructions: Seq<InstructionView>, wanted: Option<Seq<char>>, n: nat)
    requires
        n <= instructions.len(),
        forall|k: int| 0 <= k < instructions.len() ==> !is_listed(#[trigger] instructions[k], wanted),
    ensures
        !any_listed(instructions, wanted, n),
    decreases n,
{
    if n > 0 {
        lemma_none_listed(instructions, wanted, (n - 1) as nat);
    }
}

} // verus!
