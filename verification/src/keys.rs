//! Which addresses a list of instructions touches, and whether a message over
//! them can be compiled, signed by its fee payer alone, and encoded.
use vstd::prelude::*;

use crate::chain::{same_key, views, AccountMeta, Instruction, InstructionView, Pubkey};
use crate::chain::{CompiledInstructionView, MessageView};

verus! {

/// The longest list that the wire format can count.
pub const MAX_LIST_LEN: usize = 65535;

impl InstructionView {
    /// The instruction names `key` as its program or among its accounts.
    pub open spec fn mentions(self, key: Pubkey) -> bool {
        self.program_id == key || exists|j: int|
            0 <= j < self.accounts.len() && (#[trigger] self.accounts[j]).pubkey == key
    }

    /// The instruction asks for the signature of `key`.
    pub open spec fn signs(self, key: Pubkey) -> bool {
        exists|j: int|
            0 <= j < self.accounts.len() && (#[trigger] self.accounts[j]).pubkey == key
                && self.accounts[j].is_signer
    }

    /// The instruction may write to the account at `key`.
    pub open spec fn writes(self, key: Pubkey) -> bool {
        exists|j: int|
            0 <= j < self.accounts.len() && (#[trigger] self.accounts[j]).pubkey == key
                && self.accounts[j].is_writable
    }

    /// The wire format can count the accounts and the data of the instruction.
    pub open spec fn short(self) -> bool {
        self.accounts.len() <= MAX_LIST_LEN && self.data.len() <= MAX_LIST_LEN
    }
}

/// Every address that a message over `instructions`, paid for by `payer`, holds.
pub open spec fn message_keys(instructions: Seq<InstructionView>, payer: Pubkey) -> Set<Pubkey> {
    Set::new(
        |key: Pubkey|
            key == payer || exists|i: int|
                0 <= i < instructions.len() && (#[trigger] instructions[i]).mentions(key),
    )
}

/// The addresses whose signatures such a message asks for.
pub open spec fn signer_keys(instructions: Seq<InstructionView>, payer: Pubkey) -> Set<Pubkey> {
    Set::new(
        |key: Pubkey|
            key == payer || exists|i: int|
                0 <= i < instructions.len() && (#[trigger] instructions[i]).signs(key),
    )
}

/// The addresses that such a message neither has signed nor lets be written.
pub open spec fn readonly_keys(instructions: Seq<InstructionView>, payer: Pubkey) -> Set<Pubkey> {
    message_keys(instructions, payer).filter(
        |key: Pubkey|
            key != payer && forall|i: int|
                0 <= i < instructions.len() ==> !(#[trigger] instructions[i]).signs(key)
                    && !instructions[i].writes(key),
    )
}

/// No address but `payer` is asked to sign.
pub open spec fn sole_signer(instructions: Seq<InstructionView>, payer: Pubkey) -> bool {
    forall|i: int, j: int|
        0 <= i < instructions.len() && 0 <= j < instructions[i].accounts.len()
            && (#[trigger] instructions[i].accounts[j]).is_signer
            ==> instructions[i].accounts[j].pubkey == payer
}

/// The wire format can count the instructions and what each of them holds.
pub open spec fn short_lists(instructions: Seq<InstructionView>) -> bool {
    &&& instructions.len() <= MAX_LIST_LEN
    &&& forall|i: int| 0 <= i < instructions.len() ==> (#[trigger] instructions[i]).short()
}

/// The addresses fit the one-byte indices and counts of a message.
pub open spec fn indexable(instructions: Seq<InstructionView>, payer: Pubkey) -> bool {
    &&& message_keys(instructions, payer).len() <= 256
    &&& signer_keys(instructions, payer).len() <= 255
}

/// `payer` alone can sign a legacy message over `instructions`, and the message
/// can be encoded.
pub open spec fn legacy_signable(instructions: Seq<InstructionView>, payer: Pubkey) -> bool {
    &&& sole_signer(instructions, payer)
    &&& readonly_keys(instructions, payer).len() <= 255
    &&& message_keys(instructions, payer).len() <= MAX_LIST_LEN
    &&& short_lists(instructions)
}

/// A version 0 message over `instructions` can be encoded if it can be compiled
/// and signed by `payer` alone.
pub open spec fn versioned_encodable(instructions: Seq<InstructionView>, payer: Pubkey) -> bool {
    indexable(instructions, payer) && sole_signer(instructions, payer) ==> short_lists(instructions)
}

/// The compiled instruction `compiled`, read against the key list `keys`, is `instruction`.
pub open spec fn carries_one(
    keys: Seq<Pubkey>,
    compiled: CompiledInstructionView,
    instruction: InstructionView,
) -> bool {
    &&& compiled.program_id_index < keys.len()
    &&& keys[compiled.program_id_index as int] == instruction.program_id
    &&& compiled.accounts.len() == instruction.accounts.len()
    &&& forall|j: int|
        0 <= j < instruction.accounts.len() ==> compiled.accounts[j] < keys.len()
            && keys[compiled.accounts[j] as int] == (#[trigger] instruction.accounts[j]).pubkey
    &&& compiled.data == instruction.data
}

/// The message holds exactly `instructions`, in their order.
pub open spec fn carries(message: MessageView, instructions: Seq<InstructionView>) -> bool {
    &&& message.instructions.len() == instructions.len()
    &&& forall|i: int|
        0 <= i < instructions.len() ==> carries_one(
            message.account_keys,
            message.instructions[i],
            #[trigger] instructions[i],
        )
}

/// The message counts as many of its last keys as read-only as the instructions
/// neither have signed nor written, and those keys are the ones.
pub open spec fn readonly_last(
    message: MessageView,
    instructions: Seq<InstructionView>,
    payer: Pubkey,
) -> bool {
    &&& message.num_readonly_unsigned_accounts == readonly_keys(instructions, payer).len()
    &&& forall|i: int|
        0 <= i < message.account_keys.len() ==> (message.account_keys.len()
            - message.num_readonly_unsigned_accounts <= i <==> readonly_keys(
            instructions,
            payer,
        ).contains(#[trigger] message.account_keys[i]))
}

/// Adds `key` to a list without repetitions, unless it is there.
fn add_key(keys: &mut Vec<Pubkey>, key: Pubkey)
    requires
        old(keys)@.no_duplicates(),
    ensures
        final(keys)@.no_duplicates(),
        forall|k: Pubkey| #[trigger]
            final(keys)@.contains(k) <==> old(keys)@.contains(k) || k == key,
{
    let mut n: usize = 0;
    while n < keys.len()
        invariant
            n <= keys.len(),
            keys@ == old(keys)@,
            keys@.no_duplicates(),
            forall|m: int| 0 <= m < n ==> keys@[m] != key,
        decreases keys.len() - n,
    {
        if same_key(&keys[n], &key) {
            assert(keys@.contains(key));
            return;
        }
        n += 1;
    }
    let ghost before = keys@;
    keys.push(key);
    proof {
        assert(keys@[before.len() as int] == key);
        assert forall|k: Pubkey| #[trigger] keys@.contains(k) <==> before.contains(k) || k == key by {
            if before.contains(k) {
                let m = choose|m: int| 0 <= m < before.len() && before[m] == k;
                assert(keys@[m] == k);
            }
        }
    }
}

/// The addresses of a message, each once.
fn list_message_keys(instructions: &Vec<Instruction>, payer: &Pubkey) -> (keys: Vec<Pubkey>)
    ensures
        keys@.no_duplicates(),
        keys@.to_set() == message_keys(views(instructions@), *payer),
{
    let ghost all = views(instructions@);
    let mut keys: Vec<Pubkey> = Vec::new();
    keys.push(*payer);
    assert(keys@[0] == *payer);
    let mut i: usize = 0;
    while i < instructions.len()
        invariant
            i <= instructions.len(),
            all == views(instructions@),
            keys@.no_duplicates(),
            forall|k: Pubkey| #[trigger]
                keys@.contains(k) <==> k == *payer || exists|n: int|
                    0 <= n < i && (#[trigger] all[n]).mentions(k),
        decreases instructions.len() - i,
    {
        let ghost before = keys@;
        add_key(&mut keys, instructions[i].program_id);
        let mut j: usize = 0;
        while j < instructions[i].accounts.len()
            invariant
                i < instructions.len(),
                j <= instructions[i as int].accounts.len(),
                all == views(instructions@),
                keys@.no_duplicates(),
                forall|k: Pubkey| #[trigger]
                    keys@.contains(k) <==> before.contains(k) || k == all[i as int].program_id
                        || exists|m: int|
                        0 <= m < j && (#[trigger] all[i as int].accounts[m]).pubkey == k,
            decreases instructions[i as int].accounts.len() - j,
        {
            let ghost inner = keys@;
            add_key(&mut keys, instructions[i].accounts[j].pubkey);
            proof {
                assert(all[i as int].accounts[j as int].pubkey
                    == instructions[i as int].accounts[j as int].pubkey);
                assert forall|k: Pubkey| #[trigger]
                    keys@.contains(k) <==> before.contains(k) || k == all[i as int].program_id
                        || exists|m: int|
                        0 <= m < j + 1 && (#[trigger] all[i as int].accounts[m]).pubkey == k by {
                    assert(inner.contains(k) <==> before.contains(k) || k
                        == all[i as int].program_id || exists|m: int|
                        0 <= m < j && (#[trigger] all[i as int].accounts[m]).pubkey == k);
                }
            }
            j += 1;
        }
        proof {
            assert forall|k: Pubkey| #[trigger]
                keys@.contains(k) <==> k == *payer || exists|n: int|
                    0 <= n < i + 1 && (#[trigger] all[n]).mentions(k) by {
                assert(before.contains(k) <==> k == *payer || exists|n: int|
                    0 <= n < i && (#[trigger] all[n]).mentions(k));
                if keys@.contains(k) && !before.contains(k) {
                    assert(all[i as int].mentions(k));
                }
            }
        }
        i += 1;
    }
    assert(keys@.to_set() =~= message_keys(all, *payer)) by {
        assert forall|k: Pubkey| keys@.to_set().contains(k) == message_keys(all, *payer).contains(
            k,
        ) by {
            assert(keys@.to_set().contains(k) == keys@.contains(k));
        }
    }
    keys
}

/// Whether no instruction asks for a signature other than the payer's.
fn has_sole_signer(instructions: &Vec<Instruction>, payer: &Pubkey) -> (sole: bool)
    ensures
        sole == sole_signer(views(instructions@), *payer),
{
    let ghost all = views(instructions@);
    let mut i: usize = 0;
    while i < instructions.len()
        invariant
            i <= instructions.len(),
            all == views(instructions@),
            forall|n: int, m: int|
                0 <= n < i && 0 <= m < all[n].accounts.len() && (#[trigger] all[n].accounts[m]).is_signer
                    ==> all[n].accounts[m].pubkey == *payer,
        decreases instructions.len() - i,
    {
        let mut j: usize = 0;
        while j < instructions[i].accounts.len()
            invariant
                i < instructions.len(),
                j <= instructions[i as int].accounts.len(),
                all == views(instructions@),
                forall|m: int|
                    0 <= m < j && (#[trigger] all[i as int].accounts[m]).is_signer
                        ==> all[i as int].accounts[m].pubkey == *payer,
            decreases instructions[i as int].accounts.len() - j,
        {
            let meta: AccountMeta = instructions[i].accounts[j];
            assert(all[i as int].accounts[j as int] == meta);
            if meta.is_signer && !same_key(&meta.pubkey, payer) {
                return false;
            }
            j += 1;
        }
        i += 1;
    }
    true
}

/// Whether the wire format can count every list.
fn has_short_lists(instructions: &Vec<Instruction>) -> (short: bool)
    ensures
        short == short_lists(views(instructions@)),
{
    let ghost all = views(instructions@);
    if instructions.len() > MAX_LIST_LEN {
        return false;
    }
    let mut i: usize = 0;
    while i < instructions.len()
        invariant
            i <= instructions.len() <= MAX_LIST_LEN,
            all == views(instructions@),
            forall|n: int| 0 <= n < i ==> (#[trigger] all[n]).short(),
        decreases instructions.len() - i,
    {
        assert(all[i as int] == instructions[i as int]@);
        if instructions[i].accounts.len() > MAX_LIST_LEN || instructions[i].data.len()
            > MAX_LIST_LEN {
            assert(!all[i as int].short());
            return false;
        }
        i += 1;
    }
    true
}

/// Whether some instruction has `key` signed or written.
fn is_signed_or_written(instructions: &Vec<Instruction>, key: &Pubkey) -> (found: bool)
    ensures
        !found <==> forall|i: int|
            0 <= i < instructions@.len() ==> !(#[trigger] views(instructions@)[i]).signs(*key)
                && !views(instructions@)[i].writes(*key),
{
    let ghost all = views(instructions@);
    let mut i: usize = 0;
    while i < instructions.len()
        invariant
            i <= instructions.len(),
            all == views(instructions@),
            forall|n: int|
                0 <= n < i ==> !(#[trigger] all[n]).signs(*key) && !all[n].writes(*key),
        decreases instructions.len() - i,
    {
        let mut j: usize = 0;
        while j < instructions[i].accounts.len()
            invariant
                i < instructions.len(),
                j <= instructions[i as int].accounts.len(),
                all == views(instructions@),
                forall|m: int|
                    0 <= m < j && (#[trigger] all[i as int].accounts[m]).pubkey == *key
                        ==> !all[i as int].accounts[m].is_signer
                        && !all[i as int].accounts[m].is_writable,
            decreases instructions[i as int].accounts.len() - j,
        {
            let meta: AccountMeta = instructions[i].accounts[j];
            assert(all[i as int].accounts[j as int] == meta);
            if same_key(&meta.pubkey, key) && (meta.is_signer || meta.is_writable) {
                assert(all[i as int].signs(*key) || all[i as int].writes(*key));
                return true;
            }
            j += 1;
        }
        assert(!all[i as int].signs(*key) && !all[i as int].writes(*key));
        i += 1;
    }
    false
}

/// How many addresses of a message are neither signed nor written.
fn count_readonly_keys(
    instructions: &Vec<Instruction>,
    payer: &Pubkey,
    keys: &Vec<Pubkey>,
) -> (count: usize)
    requires
        keys@.no_duplicates(),
        keys@.to_set() == message_keys(views(instructions@), *payer),
    ensures
        count == readonly_keys(views(instructions@), *payer).len(),
{
    let ghost all = views(instructions@);
    let ghost idle = |key: Pubkey|
        key != *payer && forall|i: int|
            0 <= i < all.len() ==> !(#[trigger] all[i]).signs(key) && !all[i].writes(key);
    let mut found: Vec<Pubkey> = Vec::new();
    let mut n: usize = 0;
    while n < keys.len()
        invariant
            n <= keys.len(),
            all == views(instructions@),
            idle == (|key: Pubkey|
                key != *payer && forall|i: int|
                    0 <= i < all.len() ==> !(#[trigger] all[i]).signs(key) && !all[i].writes(key)),
            keys@.no_duplicates(),
            found@.no_duplicates(),
            found@.len() <= n,
            forall|k: Pubkey| #[trigger]
                found@.contains(k) <==> idle(k) && exists|m: int| 0 <= m < n && keys@[m] == k,
        decreases keys.len() - n,
    {
        let key: Pubkey = keys[n];
        let ghost before = found@;
        if !same_key(&key, payer) && !is_signed_or_written(instructions, &key) {
            assert(idle(key));
            assert(!before.contains(key));
            found.push(key);
            assert(found@[before.len() as int] == key);
            assert forall|k: Pubkey| #[trigger] found@.contains(k) <==> before.contains(k) || k
                == key by {
                if before.contains(k) {
                    let m = choose|m: int| 0 <= m < before.len() && before[m] == k;
                    assert(found@[m] == k);
                }
            }
        } else {
            assert(!idle(key));
        }
        proof {
            assert forall|k: Pubkey| #[trigger]
                found@.contains(k) <==> idle(k) && exists|m: int| 0 <= m < n + 1 && keys@[m] == k by {
                assert(before.contains(k) <==> idle(k) && exists|m: int|
                    0 <= m < n && keys@[m] == k);
            }
        }
        n += 1;
    }
    proof {
        found@.unique_seq_to_set();
        assert(found@.to_set() =~= readonly_keys(all, *payer)) by {
            assert forall|k: Pubkey| found@.to_set().contains(k) == readonly_keys(
                all,
                *payer,
            ).contains(k) by {
                assert(found@.to_set().contains(k) == found@.contains(k));
                assert(keys@.to_set().contains(k) == keys@.contains(k));
            }
        }
    }
    found.len()
}

/// Whether `payer` alone can sign a legacy message over `instructions`, and the
/// message can be encoded.
pub fn is_legacy_signable(instructions: &Vec<Instruction>, payer: &Pubkey) -> (signable: bool)
    ensures
        signable == legacy_signable(views(instructions@), *payer),
{
    let keys = list_message_keys(instructions, payer);
    proof {
        keys@.unique_seq_to_set();
    }
    has_sole_signer(instructions, payer) && count_readonly_keys(instructions, payer, &keys) <= 255
        && keys.len() <= MAX_LIST_LEN && has_short_lists(instructions)
}

/// Whether a version 0 message over `instructions`, once compiled and signed by
/// `payer`, can be encoded.
pub fn is_versioned_encodable(instructions: &Vec<Instruction>, payer: &Pubkey) -> (encodable: bool)
    ensures
        encodable == versioned_encodable(views(instructions@), *payer),
{
    let keys = list_message_keys(instructions, payer);
    proof {
        keys@.unique_seq_to_set();
        if sole_signer(views(instructions@), *payer) {
            lemma_sole_signer(views(instructions@), *payer);
        }
    }
    has_short_lists(instructions) || keys.len() > 256 || !has_sole_signer(instructions, payer)
}

/// Where only the payer is asked to sign, the payer is all of the signers.
pub proof fn lemma_sole_signer(instructions: Seq<InstructionView>, payer: Pubkey)
    ensures
        sole_signer(instructions, payer) <==> signer_keys(instructions, payer) == set![payer],
        sole_signer(instructions, payer) <==> signer_keys(instructions, payer).len() == 1
            && signer_keys(instructions, payer).finite(),
{
    let signers = signer_keys(instructions, payer);
    if sole_signer(instructions, payer) {
        assert(signers =~= set![payer]);
    }
    if signers == set![payer] {
        assert forall|i: int, j: int|
            0 <= i < instructions.len() && 0 <= j < instructions[i].accounts.len()
                && (#[trigger] instructions[i].accounts[j]).is_signer implies instructions[i].accounts[j].pubkey
            == payer by {
            let key = instructions[i].accounts[j].pubkey;
            assert(instructions[i].signs(key));
            assert(signers.contains(key));
        }
    }
    if signers.len() == 1 && signers.finite() {
        assert(signers.contains(payer));
        vstd::set_lib::lemma_len_subset(set![payer], signers);
        assert(signers =~= set![payer]) by {
            assert forall|key: Pubkey| signers.contains(key) implies key == payer by {
                if key != payer {
                    vstd::set_lib::lemma_len_subset(set![payer, key], signers);
                }
            }
        }
    }
}

/// A message holds finitely many addresses.
pub proof fn lemma_message_keys_finite(instructions: Seq<InstructionView>, payer: Pubkey)
    ensures
        message_keys(instructions, payer).finite(),
        signer_keys(instructions, payer).finite(),
        signer_keys(instructions, payer).subset_of(message_keys(instructions, payer)),
    decreases instructions.len(),
{
    let keys = message_keys(instructions, payer);
    if instructions.len() == 0 {
        assert(keys =~= set![payer]);
    } else {
        let rest = instructions.drop_last();
        let last = instructions.last();
        lemma_message_keys_finite(rest, payer);
        let own = last.accounts.map_values(|m: AccountMeta| m.pubkey);
        vstd::seq_lib::seq_to_set_is_finite(own);
        let union = message_keys(rest, payer).insert(last.program_id).union(own.to_set());
        assert(keys.subset_of(union)) by {
            assert forall|key: Pubkey| keys.contains(key) implies union.contains(key) by {
                if key != payer {
                    let i = choose|i: int|
                        0 <= i < instructions.len() && (#[trigger] instructions[i]).mentions(key);
                    if i < rest.len() {
                        assert(rest[i].mentions(key));
                    } else if key != last.program_id {
                        let j = choose|j: int|
                            0 <= j < last.accounts.len() && (#[trigger] last.accounts[j]).pubkey
                                == key;
                        assert(own[j] == key);
                    }
                }
            }
        }
        vstd::set_lib::lemma_set_subset_finite(union, keys);
    }
    assert forall|key: Pubkey| signer_keys(instructions, payer).contains(key) implies keys.contains(
        key,
    ) by {
        if key != payer {
            let i = choose|i: int|
                0 <= i < instructions.len() && (#[trigger] instructions[i]).signs(key);
            assert(instructions[i].mentions(key));
        }
    }
    vstd::set_lib::lemma_set_subset_finite(keys, signer_keys(instructions, payer));
}

/// The payer is the only signer exactly where no account of another address is marked as
/// a signer.
pub proof fn law_sole_signer_by_accounts(instructions: Seq<InstructionView>, payer: Pubkey)
    ensures
        sole_signer(instructions, payer) <==> forall|i: int, j: int|
            0 <= i < instructions.len() && 0 <= j < instructions[i].accounts.len()
                && instructions[i].accounts[j].pubkey != payer
                ==> !(#[trigger] instructions[i].accounts[j]).is_signer,
{
}

/// Lists are short exactly where none of them has more than 65535 elements.
pub proof fn law_short_lists_by_lengths(instructions: Seq<InstructionView>)
    ensures
        short_lists(instructions) <==> instructions.len() <= 65535 && forall|i: int|
            0 <= i < instructions.len() ==> (#[trigger] instructions[i]).accounts.len() <= 65535
                && instructions[i].data.len() <= 65535,
{
    if instructions.len() <= 65535 && forall|i: int|
        0 <= i < instructions.len() ==> (#[trigger] instructions[i]).accounts.len() <= 65535
            && instructions[i].data.len() <= 65535 {
        assert forall|i: int| 0 <= i < instructions.len() implies (
        #[trigger] instructions[i]).short() by {}
    }
    if short_lists(instructions) {
        assert forall|i: int| 0 <= i < instructions.len() implies (
        #[trigger] instructions[i]).accounts.len() <= 65535 && instructions[i].data.len()
            <= 65535 by {
            assert(instructions[i].short());
        }
    }
}

/// Where `keys` lists every address of a message once, `signers` those that are asked to
/// sign, and `idle` those that neither sign nor are written: a message can be indexed
/// with up to 256 addresses and 255 signers; and the payer alone can sign a legacy
/// message with up to 255 idle and 65535 addresses in all, where nobody else is asked to
/// sign and the lists are short.
pub proof fn law_limits_by_counting(
    instructions: Seq<InstructionView>,
    payer: Pubkey,
    keys: Seq<Pubkey>,
    signers: Seq<Pubkey>,
    idle: Seq<Pubkey>,
)
    requires
        keys.no_duplicates(),
        signers.no_duplicates(),
        idle.no_duplicates(),
        forall|k: Pubkey| #[trigger]
            keys.contains(k) <==> k == payer || (exists|i: int|
                0 <= i < instructions.len() && (#[trigger] instructions[i]).program_id == k) || (
            exists|i: int, j: int|
                0 <= i < instructions.len() && 0 <= j < instructions[i].accounts.len() && (
                #[trigger] instructions[i].accounts[j]).pubkey == k),
        forall|k: Pubkey| #[trigger]
            signers.contains(k) <==> k == payer || (exists|i: int, j: int|
                0 <= i < instructions.len() && 0 <= j < instructions[i].accounts.len() && (
                #[trigger] instructions[i].accounts[j]).pubkey == k
                    && instructions[i].accounts[j].is_signer),
        forall|k: Pubkey| #[trigger]
            idle.contains(k) <==> keys.contains(k) && k != payer && (forall|i: int, j: int|
                0 <= i < instructions.len() && 0 <= j < instructions[i].accounts.len() && (
                #[trigger] instructions[i].accounts[j]).pubkey == k
                    ==> !instructions[i].accounts[j].is_signer
                    && !instructions[i].accounts[j].is_writable),
    ensures
        indexable(instructions, payer) <==> keys.len() <= 256 && signers.len() <= 255,
        legacy_signable(instructions, payer) <==> idle.len() <= 255 && keys.len() <= 65535
            && sole_signer(instructions, payer) && short_lists(instructions),
        versioned_encodable(instructions, payer) <==> keys.len() > 256 || signers.len() > 255
            || !sole_signer(instructions, payer) || short_lists(instructions),
{
    keys.unique_seq_to_set();
    signers.unique_seq_to_set();
    idle.unique_seq_to_set();
    let all = message_keys(instructions, payer);
    let asked = signer_keys(instructions, payer);
    let quiet = readonly_keys(instructions, payer);
    assert forall|k: Pubkey| keys.to_set().contains(k) == all.contains(k) by {
        assert(keys.to_set().contains(k) == keys.contains(k));
        if all.contains(k) && k != payer {
            let i = choose|i: int|
                0 <= i < instructions.len() && (#[trigger] instructions[i]).mentions(k);
            if instructions[i].program_id != k {
                let j = choose|j: int|
                    0 <= j < instructions[i].accounts.len() && (
                    #[trigger] instructions[i].accounts[j]).pubkey == k;
                assert(instructions[i].accounts[j].pubkey == k);
            }
        }
        if keys.contains(k) && k != payer {
            if exists|i: int|
                0 <= i < instructions.len() && (#[trigger] instructions[i]).program_id == k {
                let i = choose|i: int|
                    0 <= i < instructions.len() && (#[trigger] instructions[i]).program_id == k;
                assert(instructions[i].mentions(k));
            } else {
                let (i, j) = choose|i: int, j: int|
                    0 <= i < instructions.len() && 0 <= j < instructions[i].accounts.len() && (
                    #[trigger] instructions[i].accounts[j]).pubkey == k;
                assert(instructions[i].mentions(k));
            }
        }
    }
    assert(keys.to_set() =~= all);
    assert forall|k: Pubkey| signers.to_set().contains(k) == asked.contains(k) by {
        assert(signers.to_set().contains(k) == signers.contains(k));
        if asked.contains(k) && k != payer {
            let i = choose|i: int|
                0 <= i < instructions.len() && (#[trigger] instructions[i]).signs(k);
            let j = choose|j: int|
                0 <= j < instructions[i].accounts.len() && (
                #[trigger] instructions[i].accounts[j]).pubkey == k
                    && instructions[i].accounts[j].is_signer;
            assert(instructions[i].accounts[j].is_signer);
        }
        if signers.contains(k) && k != payer {
            let (i, j) = choose|i: int, j: int|
                0 <= i < instructions.len() && 0 <= j < instructions[i].accounts.len() && (
                #[trigger] instructions[i].accounts[j]).pubkey == k
                    && instructions[i].accounts[j].is_signer;
            assert(instructions[i].signs(k));
        }
    }
    assert(signers.to_set() =~= asked);
    assert forall|k: Pubkey| idle.to_set().contains(k) == quiet.contains(k) by {
        assert(idle.to_set().contains(k) == idle.contains(k));
        assert(keys.to_set().contains(k) == keys.contains(k));
        if idle.contains(k) {
            assert forall|i: int| 0 <= i < instructions.len() implies !(
            #[trigger] instructions[i]).signs(k) && !instructions[i].writes(k) by {
                if instructions[i].signs(k) || instructions[i].writes(k) {
                    let j = choose|j: int|
                        0 <= j < instructions[i].accounts.len() && (
                        #[trigger] instructions[i].accounts[j]).pubkey == k && (
                        instructions[i].accounts[j].is_signer
                            || instructions[i].accounts[j].is_writable);
                    assert(instructions[i].accounts[j].pubkey == k);
                }
            }
        }
        if quiet.contains(k) {
            assert forall|i: int, j: int|
                0 <= i < instructions.len() && 0 <= j < instructions[i].accounts.len() && (
                #[trigger] instructions[i].accounts[j]).pubkey == k implies
                !instructions[i].accounts[j].is_signer && !instructions[i].accounts[j].is_writable by {
                assert(!instructions[i].signs(k) && !instructions[i].writes(k));
            }
        }
    }
    assert(idle.to_set() =~= quiet);
}

/// A message that carries instructions holds each of them in its place: the same program,
/// the same accounts in the same order, the same data, read through the key list.
pub proof fn law_carried_instructions_read_back(
    message: MessageView,
    instructions: Seq<InstructionView>,
    i: int,
    j: int,
)
    requires
        carries(message, instructions),
        0 <= i < instructions.len(),
    ensures
        message.instructions.len() == instructions.len(),
        message.instructions[i].program_id_index < message.account_keys.len(),
        message.account_keys[message.instructions[i].program_id_index as int]
            == instructions[i].program_id,
        message.instructions[i].accounts.len() == instructions[i].accounts.len(),
        0 <= j < instructions[i].accounts.len() ==> message.instructions[i].accounts[j]
            < message.account_keys.len(),
        0 <= j < instructions[i].accounts.len()
            ==> message.account_keys[message.instructions[i].accounts[j] as int]
            == instructions[i].accounts[j].pubkey,
        message.instructions[i].data == instructions[i].data,
{
    let instruction = instructions[i];
    assert(carries_one(message.account_keys, message.instructions[i], instruction));
    assert(instruction.accounts[j] == instructions[i].accounts[j]);
}

} // verus!
