//! The signature side-channel.
//!
//! A caller collects (address, signature-pair) entries before the run;
//! `update_signature` registers them with the verification builtin. The
//! last pair added for an address wins. An address outside the builtin's
//! segment is a fatal error for the registration; pairs already
//! registered stay registered.

use vstd::prelude::*;
use crate::errors::{SignatureError, VmError};
use crate::felt::Felt;
use crate::relocatable::Relocatable;

verus! {

/// One stored signature entry.
pub type SigEntry = (Relocatable, (Felt, Felt));

/// The first pair stored for `a`, if any.
pub open spec fn sig_find(s: Seq<SigEntry>, a: Relocatable) -> Option<(Felt, Felt)>
    decreases s.len(),
{
    if s.len() == 0 {
        None
    } else if s[0].0 == a {
        Some(s[0].1)
    } else {
        sig_find(s.drop_first(), a)
    }
}

/// The table after storing `pair` for `a`: an existing entry for `a` is
/// replaced in place, otherwise the entry is appended.
pub open spec fn sig_set(s: Seq<SigEntry>, a: Relocatable, pair: (Felt, Felt)) -> Seq<SigEntry>
    decreases s.len(),
{
    if s.len() == 0 {
        seq![(a, pair)]
    } else if s[0].0 == a {
        seq![(a, pair)] + s.drop_first()
    } else {
        seq![s[0]] + sig_set(s.drop_first(), a, pair)
    }
}

/// Storing a pair updates the lookup for its address and no other: the
/// last write for an address wins.
pub proof fn lemma_sig_set_find(s: Seq<SigEntry>, a: Relocatable, pair: (Felt, Felt), b: Relocatable)
    ensures
        sig_find(sig_set(s, a, pair), b) == (if b == a {
            Some(pair)
        } else {
            sig_find(s, b)
        }),
    decreases s.len(),
{
    let t = sig_set(s, a, pair);
    if s.len() == 0 {
        assert(t == seq![(a, pair)]);
        assert(t[0] == (a, pair));
        assert(t.drop_first() =~= Seq::<SigEntry>::empty());
        if b != a {
            assert(sig_find(t, b) == sig_find(t.drop_first(), b));
            assert(sig_find(Seq::<SigEntry>::empty(), b) is None);
        }
    } else if s[0].0 == a {
        assert(t =~= seq![(a, pair)] + s.drop_first());
        assert(t[0] == (a, pair));
        assert(t.drop_first() =~= s.drop_first());
        if b != a {
            assert(sig_find(t, b) == sig_find(s.drop_first(), b));
            assert(sig_find(s, b) == sig_find(s.drop_first(), b));
        }
    } else {
        lemma_sig_set_find(s.drop_first(), a, pair, b);
        let u = sig_set(s.drop_first(), a, pair);
        assert(t =~= seq![s[0]] + u);
        assert(t[0] == s[0]);
        assert(t.drop_first() =~= u);
        if s[0].0 == b {
            assert(sig_find(t, b) == Some(s[0].1));
            assert(sig_find(s, b) == Some(s[0].1));
        } else {
            assert(sig_find(t, b) == sig_find(u, b));
            assert(sig_find(s, b) == sig_find(s.drop_first(), b));
        }
    }
}

/// Store `pair` for `a` in a table, replacing in place or appending.
fn sig_put(table: &mut Vec<SigEntry>, a: Relocatable, pair: (Felt, Felt))
    ensures
        final(table)@ == sig_set(old(table)@, a, pair),
{
    let n = table.len();
    let mut i: usize = 0;
    while i < n
        invariant
            i <= n,
            n == table@.len(),
            table@ == old(table)@,
            forall|j: int| 0 <= j < i ==> table@[j].0 != a,
        decreases n - i,
    {
        if table[i].0 == a {
            table.set(i, (a, pair));
            proof {
                lemma_sig_set_prefix(old(table)@, i as int, a, pair);
            }
            return;
        }
        i = i + 1;
    }
    table.push((a, pair));
    proof {
        lemma_sig_set_append(old(table)@, a, pair);
    }
}

/// When the first `i` addresses all differ from `a` and position `i`
/// carries it, storing replaces exactly position `i`.
proof fn lemma_sig_set_prefix(s: Seq<SigEntry>, i: int, a: Relocatable, pair: (Felt, Felt))
    requires
        0 <= i < s.len(),
        s[i].0 == a,
        forall|j: int| 0 <= j < i ==> s[j].0 != a,
    ensures
        sig_set(s, a, pair) == s.update(i, (a, pair)),
    decreases i,
{
    if i == 0 {
        assert(sig_set(s, a, pair) =~= s.update(0, (a, pair)));
    } else {
        assert(forall|j: int| 1 <= j < s.len() ==> s[j] == s.drop_first()[j - 1]);
        lemma_sig_set_prefix(s.drop_first(), i - 1, a, pair);
        assert(sig_set(s, a, pair) =~= s.update(i, (a, pair)));
    }
}

/// When no address matches, storing appends.
proof fn lemma_sig_set_append(s: Seq<SigEntry>, a: Relocatable, pair: (Felt, Felt))
    requires
        forall|j: int| 0 <= j < s.len() ==> s[j].0 != a,
    ensures
        sig_set(s, a, pair) == s.push((a, pair)),
    decreases s.len(),
{
    if s.len() == 0 {
        assert(sig_set(s, a, pair) =~= s.push((a, pair)));
    } else {
        assert(forall|j: int| 1 <= j < s.len() ==> s[j] == s.drop_first()[j - 1]);
        lemma_sig_set_append(s.drop_first(), a, pair);
        assert(sig_set(s, a, pair) =~= s.push((a, pair)));
    }
}

/// The bridge's model of the verification builtin: the segment it owns
/// and the signatures registered with it.
pub struct SignatureBuiltin {
    pub base: Relocatable,
    pub signatures: Vec<SigEntry>,
}

impl SignatureBuiltin {
    /// A builtin owning the segment of `base` with nothing registered.
    pub fn new(base: Relocatable) -> (r: SignatureBuiltin)
        ensures
            r.base == base,
            r.signatures@ == Seq::<SigEntry>::empty(),
    {
        SignatureBuiltin { base, signatures: Vec::new() }
    }

    /// Register one pair; an address outside the builtin's segment is
    /// rejected.
    pub fn add_signature(&mut self, address: Relocatable, pair: (Felt, Felt)) -> (r: Result<
        (),
        VmError,
    >)
        ensures
            final(self).base == old(self).base,
            address.segment_index == old(self).base.segment_index ==> r == Ok::<(), VmError>(())
                && final(self).signatures@ == sig_set(old(self).signatures@, address, pair),
            address.segment_index != old(self).base.segment_index ==> r == Err::<(), _>(
                VmError::Signature(SignatureError::AddressOutOfRange),
            ) && final(self).signatures@ == old(self).signatures@,
    {
        if address.segment_index == self.base.segment_index {
            sig_put(&mut self.signatures, address, pair);
            Ok(())
        } else {
            Err(VmError::Signature(SignatureError::AddressOutOfRange))
        }
    }
}

/// The builtin's table after registering a list of pairs in order: the
/// first address outside the builtin's segment stops the registration,
/// keeping the pairs already registered.
pub open spec fn apply_sigs_spec(
    table: Seq<SigEntry>,
    base: Relocatable,
    sigs: Seq<SigEntry>,
) -> (Option<VmError>, Seq<SigEntry>)
    decreases sigs.len(),
{
    if sigs.len() == 0 {
        (None, table)
    } else if sigs[0].0.segment_index == base.segment_index {
        apply_sigs_spec(sig_set(table, sigs[0].0, sigs[0].1), base, sigs.drop_first())
    } else {
        (Some(VmError::Signature(SignatureError::AddressOutOfRange)), table)
    }
}

/// The caller-facing signature table.
#[derive(Clone, Debug, PartialEq, Eq)]
pub struct PySignature {
    pub signatures: Vec<SigEntry>,
}

impl PySignature {
    /// An empty table.
    pub fn new() -> (r: PySignature)
        ensures
            r.signatures@ == Seq::<SigEntry>::empty(),
    {
        PySignature { signatures: Vec::new() }
    }

    /// Insert or overwrite the pair for an address: the last write for a
    /// given address wins.
    pub fn add_signature(&mut self, address: Relocatable, pair: (Felt, Felt))
        ensures
            final(self).signatures@ == sig_set(old(self).signatures@, address, pair),
    {
        sig_put(&mut self.signatures, address, pair);
    }

    /// Register every stored pair with the verification builtin, in
    /// storage order; the first address outside the builtin's segment is
    /// a fatal error, and pairs registered before it stay registered.
    #[verifier::loop_isolation(false)]
    pub fn update_signature(&self, signature_builtin: &mut SignatureBuiltin) -> (r: Result<
        (),
        VmError,
    >)
        ensures
            final(signature_builtin).base == old(signature_builtin).base,
            ({
                let out = apply_sigs_spec(
                    old(signature_builtin).signatures@,
                    old(signature_builtin).base,
                    self.signatures@,
                );
                final(signature_builtin).signatures@ == out.1 && (match out.0 {
                    Some(e) => r == Err::<(), _>(e),
                    None => r == Ok::<(), VmError>(()),
                })
            }),
    {
        let ghost target = apply_sigs_spec(
            signature_builtin.signatures@,
            signature_builtin.base,
            self.signatures@,
        );
        proof {
            assert(self.signatures@.skip(0) =~= self.signatures@);
        }
        let n = self.signatures.len();
        let mut i: usize = 0;
        while i < n
            invariant
                i <= n,
                n == self.signatures@.len(),
                signature_builtin.base == old(signature_builtin).base,
                target == apply_sigs_spec(
                    signature_builtin.signatures@,
                    signature_builtin.base,
                    self.signatures@.skip(i as int),
                ),
            decreases n - i,
        {
            proof {
                assert(self.signatures@.skip(i as int)[0] == self.signatures@[i as int]);
                assert(self.signatures@.skip(i as int).drop_first() =~= self.signatures@.skip(
                    i as int + 1,
                ));
            }
            let e = &self.signatures[i];
            match signature_builtin.add_signature(e.0, e.1) {
                Ok(_) => {},
                Err(err) => {
                    return Err(err);
                },
            }
            i = i + 1;
        }
        proof {
            assert(self.signatures@.skip(i as int) =~= Seq::<SigEntry>::empty());
        }
        Ok(())
    }
}

impl Default for PySignature {
    /// An empty table.
    fn default() -> (r: PySignature)
        ensures
            r.signatures@ == Seq::<SigEntry>::empty(),
    {
        PySignature::new()
    }
}

} // verus!
