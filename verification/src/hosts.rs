use vstd::prelude::*;
use vstd::string::StringExecFns;

verus! {

/// One redirect entry of the blocklist: `0.0.0.0 <domain>` and a newline.
pub open spec fn redirect_line(domain: Seq<char>) -> Seq<char> {
    "0.0.0.0 "@ + domain + "\n"@
}

/// The text a block application appends to the hosts file: one redirect
/// line per configured domain, in configuration order.
pub open spec fn blocklist_text(domains: Seq<Seq<char>>) -> Seq<char>
    decreases domains.len(),
{
    if domains.len() == 0 {
        Seq::empty()
    } else {
        blocklist_text(domains.drop_last()) + redirect_line(domains.last())
    }
}

/// What a block application produces from the live hosts content: the
/// backup, a verbatim copy taken before any mutation, and the mutated
/// content, the original with the blocklist appended.
pub open spec fn apply_block_spec(original: Seq<char>, domains: Seq<Seq<char>>) -> (Seq<
    char,
>, Seq<char>) {
    (original, original + blocklist_text(domains))
}

/// What a restore writes over the live hosts file: the backup, verbatim.
pub open spec fn restore_spec(backup: Seq<char>) -> Seq<char> {
    backup
}

/// The text to append to the hosts file for these domains.
pub fn render_blocklist(domains: &Vec<String>) -> (r: String)
    ensures
        r@ == blocklist_text(domains.deep_view()),
{
    let ghost dv = domains.deep_view();
    let mut r = String::new();
    for i in 0..domains.len()
        invariant
            dv == domains.deep_view(),
            r@ == blocklist_text(dv.take(i as int)),
    {
        r.append("0.0.0.0 ");
        r.append(domains[i].as_str());
        r.append("\n");
        proof {
            assert(dv.take(i + 1).drop_last() =~= dv.take(i as int));
            assert(dv.take(i + 1).last() == domains[i as int]@);
            assert(r@ =~= blocklist_text(dv.take(i + 1)));
        }
    }
    proof {
        assert(dv.take(domains.len() as int) =~= dv);
    }
    r
}

/// The result of applying the block to the live hosts content.
pub struct BlockMutation {
    /// A verbatim copy of the pre-block content, written to the backup
    /// location before the live file is touched.
    pub backup: String,
    /// The new live content: the pre-block content with one redirect line
    /// appended per domain.
    pub mutated: String,
}

/// Applies the block to the hosts content read from the live file: first a
/// verbatim backup of it, then the same content with the blocklist appended
/// and nothing of the original removed or reordered.
pub fn apply_block(contents: &String, domains: &Vec<String>) -> (r: BlockMutation)
    ensures
        r.backup@ == apply_block_spec(contents@, domains.deep_view()).0,
        r.mutated@ == apply_block_spec(contents@, domains.deep_view()).1,
{
    let backup = contents.clone();
    let mut mutated = contents.clone();
    let lines = render_blocklist(domains);
    mutated.append(lines.as_str());
    BlockMutation { backup, mutated }
}

/// The content a restore writes over the live hosts file: the backup, in
/// full and unchanged.
pub fn restore_contents(backup: &String) -> (r: String)
    ensures
        r@ == restore_spec(backup@),
{
    backup.clone()
}

/// Idempotent-restore law: restoring from the backup taken by a block
/// application, with no mutation in between, reproduces the exact content
/// the live hosts file had before the block was applied.
pub proof fn lemma_restore_after_apply(original: Seq<char>, domains: Seq<Seq<char>>)
    ensures
        restore_spec(apply_block_spec(original, domains).0) == original,
{
}

/// Append-only law: a block application keeps every pre-existing character
/// of the hosts content at its position and appends exactly the blocklist
/// text, one `0.0.0.0 <domain>` line per domain, after it.
pub proof fn lemma_apply_block_append_only(original: Seq<char>, domains: Seq<Seq<char>>)
    ensures
        apply_block_spec(original, domains).1.len() == original.len() + blocklist_text(
            domains,
        ).len(),
        apply_block_spec(original, domains).1.subrange(0, original.len() as int) == original,
        apply_block_spec(original, domains).1.subrange(
            original.len() as int,
            apply_block_spec(original, domains).1.len() as int,
        ) == blocklist_text(domains),
{
    let mutated = apply_block_spec(original, domains).1;
    assert(mutated.subrange(0, original.len() as int) =~= original);
    assert(mutated.subrange(original.len() as int, mutated.len() as int) =~= blocklist_text(
        domains,
    ));
}

} // verus!
