//! Structural checks on certificate chains: issuer ordering and total size.

use vstd::prelude::*;

verus! {

/// The two names of a certificate that chain ordering depends on, each as the
/// DER encoding of the X.509 name.
#[derive(Debug)]
pub struct CertificateNames {
    /// Who the certificate was issued to.
    pub subject: Vec<u8>,
    /// Who issued the certificate.
    pub issuer: Vec<u8>,
}

/// `issuer` names itself as what `cert` says issued it.
pub open spec fn issued_by(cert: CertificateNames, issuer: CertificateNames) -> bool {
    issuer.subject@ == cert.issuer@
}

/// A chain is ordered when it starts at the leaf and every certificate is
/// followed by its issuer. Nothing is asked of the last certificate.
pub open spec fn chain_ordered(chain: Seq<CertificateNames>) -> bool {
    forall|i: int| 0 <= i < chain.len() - 1 ==> issued_by(#[trigger] chain[i], chain[i + 1])
}

/// The byte strings that the entries of `chain` hold.
pub open spec fn chain_bytes(chain: Seq<Vec<u8>>) -> Seq<Seq<u8>> {
    Seq::new(chain.len(), |i: int| chain[i]@)
}

/// The number of bytes in all the entries of `chain` together.
pub open spec fn total_len(chain: Seq<Seq<u8>>) -> nat
    decreases chain.len(),
{
    if chain.len() == 0 {
        0
    } else {
        total_len(chain.drop_last()) + chain.last().len()
    }
}

/// Whether two byte strings are the same.
pub fn bytes_equal(a: &[u8], b: &[u8]) -> (same: bool)
    ensures
        same == (a@ == b@),
{
    if a.len() != b.len() {
        return false;
    }
    let mut i: usize = 0;
    while i < a.len()
        invariant
            a@.len() == b@.len(),
            0 <= i <= a@.len(),
            forall|j: int| 0 <= j < i ==> a@[j] == b@[j],
        decreases a@.len() - i,
    {
        if a[i] != b[i] {
            return false;
        }
        i += 1;
    }
    assert(a@ =~= b@);
    true
}

/// Checks that `chain` is leaf-first: each certificate's issuer is the subject
/// of the one after it. Chains of length zero or one are ordered. The check
/// is structural only; no signature and no validity period is looked at.
pub fn check_chain_order(chain: &[CertificateNames]) -> (ordered: bool)
    ensures
        ordered == chain_ordered(chain@),
{
    if chain.len() < 2 {
        return true;
    }
    let mut i: usize = 0;
    while i < chain.len() - 1
        invariant
            chain@.len() >= 2,
            0 <= i <= chain@.len() - 1,
            forall|j: int| 0 <= j < i ==> issued_by(#[trigger] chain@[j], chain@[j + 1]),
        decreases chain@.len() - i,
    {
        if !bytes_equal(chain[i + 1].subject.as_slice(), chain[i].issuer.as_slice()) {
            assert(!issued_by(chain@[i as int], chain@[i + 1]));
            return false;
        }
        i += 1;
    }
    true
}

/// The total number of bytes in `chain`, or `None` where that number does not
/// fit the machine's word.
pub fn chain_byte_len(chain: &Vec<Vec<u8>>) -> (len: Option<usize>)
    ensures
        len is Some <==> total_len(chain_bytes(chain@)) <= usize::MAX,
        len is Some ==> len.unwrap() == total_len(chain_bytes(chain@)),
{
    let ghost all = chain_bytes(chain@);
    let mut sum: usize = 0;
    let mut i: usize = 0;
    assert(all.subrange(0, 0) =~= Seq::<Seq<u8>>::empty());
    while i < chain.len()
        invariant
            all == chain_bytes(chain@),
            0 <= i <= chain@.len(),
            sum == total_len(all.subrange(0, i as int)),
        decreases chain@.len() - i,
    {
        proof {
            let next = all.subrange(0, i + 1);
            assert(next.drop_last() =~= all.subrange(0, i as int));
            assert(next.last() == chain@[i as int]@);
            lemma_total_len_prefix(all, i + 1);
        }
        match sum.checked_add(chain[i].len()) {
            Some(s) => {
                sum = s;
            },
            None => {
                return None;
            },
        }
        i += 1;
    }
    assert(all.subrange(0, chain@.len() as int) =~= all);
    Some(sum)
}

/// A prefix of a chain holds no more bytes than the chain.
pub proof fn lemma_total_len_prefix(chain: Seq<Seq<u8>>, n: int)
    requires
        0 <= n <= chain.len(),
    ensures
        total_len(chain.subrange(0, n)) <= total_len(chain),
    decreases chain.len(),
{
    if n == chain.len() {
        assert(chain.subrange(0, n) =~= chain);
    } else {
        assert(chain.drop_last().subrange(0, n) =~= chain.subrange(0, n));
        lemma_total_len_prefix(chain.drop_last(), n);
    }
}

/// In an ordered chain every certificate but the last is followed by its
/// issuer; in particular a chain of two is ordered exactly when the second
/// issued the first.
pub proof fn lemma_pair_ordered(leaf: CertificateNames, issuer: CertificateNames)
    ensures
        chain_ordered(seq![leaf, issuer]) == issued_by(leaf, issuer),
        chain_ordered(seq![issuer, leaf]) == issued_by(issuer, leaf),
{
    let a = seq![leaf, issuer];
    let b = seq![issuer, leaf];
    assert(a[0] == leaf && a[1] == issuer);
    assert(b[0] == issuer && b[1] == leaf);
    if chain_ordered(a) {
        assert(issued_by(a[0int], a[0int + 1]));
    }
    if chain_ordered(b) {
        assert(issued_by(b[0int], b[0int + 1]));
    }
}

/// A chain of two in which the second certificate issued the first is
/// ordered, and the same two the other way round are not, unless the first
/// is also named as the issuer of the second.
pub proof fn lemma_swapped_pair_rejected(leaf: CertificateNames, issuer: CertificateNames)
    requires
        issued_by(leaf, issuer),
        !issued_by(issuer, leaf),
    ensures
        chain_ordered(seq![leaf, issuer]),
        !chain_ordered(seq![issuer, leaf]),
{
    lemma_pair_ordered(leaf, issuer);
}

} // verus!
