use vstd::prelude::*;
use crate::model::{
    InputDescriptor, ParsedCredential, PresentationDefinition, StoredCredential,
    cred_seq_views_equal, same_credential,
};

verus! {

/// Does `v` hold a string whose characters are `s`?
pub open spec fn contains_str(v: Seq<String>, s: Seq<char>) -> bool {
    exists|i: int| 0 <= i < v.len() && v[i]@ == s
}

/// A credential satisfies one input descriptor when its format is among the
/// descriptor's accepted formats and every required field path of the
/// descriptor resolves against the credential's claims.
pub open spec fn descriptor_accepts(c: ParsedCredential, d: InputDescriptor) -> bool {
    contains_str(d.formats@, c.format@) && forall|i: int|
        0 <= i < d.required_fields@.len() ==> contains_str(
            c.claims@,
            #[trigger] d.required_fields@[i]@,
        )
}

/// A credential satisfies a presentation definition when it satisfies at
/// least one of its input descriptors. The decision is a pure function of the
/// credential and the definition alone.
pub open spec fn credential_matches(c: ParsedCredential, def: PresentationDefinition) -> bool {
    exists|i: int| 0 <= i < def.input_descriptors@.len() && descriptor_accepts(
        c,
        #[trigger] def.input_descriptors@[i],
    )
}

/// The claim paths the verifier asked to see of `c`, over the first `n`
/// descriptors: the required fields of every descriptor that `c` satisfies,
/// in definition order.
pub open spec fn requested_fields_upto(
    descs: Seq<InputDescriptor>,
    c: ParsedCredential,
    n: int,
) -> Seq<String>
    decreases n,
{
    if n <= 0 {
        Seq::empty()
    } else {
        requested_fields_upto(descs, c, n - 1) + if descriptor_accepts(c, descs[n - 1]) {
            descs[n - 1].required_fields@
        } else {
            Seq::empty()
        }
    }
}

/// The claim paths the verifier asked to see of `c` under `def`.
pub open spec fn requested_fields_spec(def: PresentationDefinition, c: ParsedCredential) -> Seq<
    String,
> {
    requested_fields_upto(def.input_descriptors@, c, def.input_descriptors@.len() as int)
}

/// The credentials of `pool`, parse failures already dropped, that satisfy
/// `def`, restricted to the first `n` entries and kept in pool order.
pub open spec fn matched_upto(
    pool: Seq<ParsedCredential>,
    def: PresentationDefinition,
    n: int,
) -> Seq<ParsedCredential>
    decreases n,
{
    if n <= 0 {
        Seq::empty()
    } else {
        matched_upto(pool, def, n - 1) + if credential_matches(pool[n - 1], def) {
            seq![pool[n - 1]]
        } else {
            Seq::empty()
        }
    }
}

/// Exactly the credentials of `pool` that satisfy `def`, in pool order.
pub open spec fn matched_credentials(
    pool: Seq<ParsedCredential>,
    def: PresentationDefinition,
) -> Seq<ParsedCredential> {
    matched_upto(pool, def, pool.len() as int)
}

/// The credentials that the store adapter managed to parse, among the first
/// `n` entries, in store order; entries whose parse failed are skipped.
pub open spec fn parsed_upto(entries: Seq<StoredCredential>, n: int) -> Seq<ParsedCredential>
    decreases n,
{
    if n <= 0 {
        Seq::empty()
    } else {
        parsed_upto(entries, n - 1) + match entries[n - 1].parsed {
            Some(c) => seq![c],
            None => Seq::empty(),
        }
    }
}

/// All credentials the store adapter managed to parse, in store order.
pub open spec fn parsed_entries(entries: Seq<StoredCredential>) -> Seq<ParsedCredential> {
    parsed_upto(entries, entries.len() as int)
}

/// Is there an element of `v` with the same characters as `s`?
pub fn contains_string(v: &Vec<String>, s: &String) -> (r: bool)
    ensures
        r == contains_str(v@, s@),
{
    let mut i: usize = 0;
    while i < v.len()
        invariant
            0 <= i <= v.len(),
            forall|j: int| 0 <= j < i ==> v@[j]@ != s@,
        decreases v.len() - i,
    {
        if v[i] == *s {
            return true;
        }
        i += 1;
    }
    false
}

impl ParsedCredential {
    /// Does this credential satisfy `descriptor`?
    pub fn check_descriptor(&self, descriptor: &InputDescriptor) -> (r: bool)
        ensures
            r == descriptor_accepts(*self, *descriptor),
    {
        if !contains_string(&descriptor.formats, &self.format) {
            return false;
        }
        let mut i: usize = 0;
        while i < descriptor.required_fields.len()
            invariant
                0 <= i <= descriptor.required_fields.len(),
                contains_str(descriptor.formats@, self.format@),
                forall|j: int| 0 <= j < i ==> contains_str(
                    self.claims@,
                    #[trigger] descriptor.required_fields@[j]@,
                ),
            decreases descriptor.required_fields.len() - i,
        {
            if !contains_string(&self.claims, &descriptor.required_fields[i]) {
                return false;
            }
            i += 1;
        }
        true
    }

    /// Does this credential satisfy at least one input descriptor of
    /// `definition`? The decision reads only the credential and the
    /// definition; no external state takes part.
    pub fn check_presentation_definition(&self, definition: &PresentationDefinition) -> (r: bool)
        ensures
            r == credential_matches(*self, *definition),
    {
        let mut i: usize = 0;
        while i < definition.input_descriptors.len()
            invariant
                0 <= i <= definition.input_descriptors.len(),
                forall|j: int| 0 <= j < i ==> !descriptor_accepts(
                    *self,
                    #[trigger] definition.input_descriptors@[j],
                ),
            decreases definition.input_descriptors.len() - i,
        {
            if self.check_descriptor(&definition.input_descriptors[i]) {
                return true;
            }
            i += 1;
        }
        false
    }
}

/// The ordered list of claim paths the verifier asked to see of
/// `credential`: for every input descriptor the credential satisfies, that
/// descriptor's required fields, in definition order. Purely presentational;
/// neither the credential nor the definition is changed.
pub fn requested_fields(definition: &PresentationDefinition, credential: &ParsedCredential) -> (r:
    Vec<String>)
    ensures
        r@ == requested_fields_spec(*definition, *credential),
{
    let ghost descs = definition.input_descriptors@;
    let mut r: Vec<String> = Vec::new();
    let mut i: usize = 0;
    while i < definition.input_descriptors.len()
        invariant
            0 <= i <= definition.input_descriptors.len(),
            descs == definition.input_descriptors@,
            r@ == requested_fields_upto(descs, *credential, i as int),
        decreases definition.input_descriptors.len() - i,
    {
        let d = &definition.input_descriptors[i];
        if credential.check_descriptor(d) {
            let mut j: usize = 0;
            while j < d.required_fields.len()
                invariant
                    0 <= j <= d.required_fields.len(),
                    descs == definition.input_descriptors@,
                    0 <= i < descs.len(),
                    *d == descs[i as int],
                    descriptor_accepts(*credential, *d),
                    r@ == requested_fields_upto(descs, *credential, i as int)
                        + d.required_fields@.subrange(0, j as int),
                decreases d.required_fields.len() - j,
            {
                r.push(d.required_fields[j].clone());
                assert(requested_fields_upto(descs, *credential, i as int)
                    + d.required_fields@.subrange(0, j + 1 as int) =~= (requested_fields_upto(
                    descs,
                    *credential,
                    i as int,
                ) + d.required_fields@.subrange(0, j as int)).push(d.required_fields@[j as int]));
                j += 1;
            }
            assert(d.required_fields@.subrange(0, d.required_fields@.len() as int)
                =~= d.required_fields@);
            assert(r@ =~= requested_fields_upto(descs, *credential, i + 1 as int));
        } else {
            assert(r@ =~= requested_fields_upto(descs, *credential, i + 1 as int));
        }
        i += 1;
    }
    r
}

/// Satisfaction depends only on a credential's content: credentials with the
/// same format and claims are accepted by the same descriptors and match the
/// same definitions.
pub proof fn lemma_matches_congruent(
    a: ParsedCredential,
    b: ParsedCredential,
    def: PresentationDefinition,
)
    requires
        same_credential(a, b),
    ensures
        credential_matches(a, def) == credential_matches(b, def),
{
    assert forall|i: int|
        0 <= i < def.input_descriptors@.len() implies #[trigger] descriptor_accepts(
        a,
        def.input_descriptors@[i],
    ) == descriptor_accepts(b, def.input_descriptors@[i]) by {
        lemma_accepts_congruent(a, b, def.input_descriptors@[i]);
    }
}

/// Descriptor satisfaction depends only on the credential's content.
pub proof fn lemma_accepts_congruent(a: ParsedCredential, b: ParsedCredential, d: InputDescriptor)
    requires
        same_credential(a, b),
    ensures
        descriptor_accepts(a, d) == descriptor_accepts(b, d),
{
    assert forall|s: Seq<char>| contains_str(a.claims@, s) implies contains_str(b.claims@, s) by {
        let i = choose|i: int| 0 <= i < a.claims@.len() && a.claims@[i]@ == s;
        assert(b.claims@[i]@ == s);
    }
    assert forall|s: Seq<char>| contains_str(b.claims@, s) implies contains_str(a.claims@, s) by {
        let i = choose|i: int| 0 <= i < b.claims@.len() && b.claims@[i]@ == s;
        assert(a.claims@[i]@ == s);
    }
}

/// Every credential the matcher returns satisfies the definition.
pub proof fn lemma_matched_upto_all_match(
    pool: Seq<ParsedCredential>,
    def: PresentationDefinition,
    n: int,
)
    requires
        n <= pool.len(),
    ensures
        forall|k: int| 0 <= k < matched_upto(pool, def, n).len() ==> credential_matches(
            #[trigger] matched_upto(pool, def, n)[k],
            def,
        ),
    decreases n,
{
    if n > 0 {
        lemma_matched_upto_all_match(pool, def, n - 1);
        let prev = matched_upto(pool, def, n - 1);
        let cur = matched_upto(pool, def, n);
        assert forall|k: int| 0 <= k < cur.len() implies credential_matches(cur[k], def) by {
            if k < prev.len() {
                assert(cur[k] == prev[k]);
            } else {
                assert(cur[k] == pool[n - 1]);
            }
        }
    }
}

/// The matched set reads only the first `n` pool entries: a pool extended
/// past `n` yields the same matched prefix.
pub proof fn lemma_matched_upto_extend(
    p: Seq<ParsedCredential>,
    q: Seq<ParsedCredential>,
    def: PresentationDefinition,
    n: int,
)
    requires
        0 <= n <= p.len(),
        n <= q.len(),
        forall|i: int| 0 <= i < n ==> p[i] == q[i],
    ensures
        matched_upto(p, def, n) == matched_upto(q, def, n),
    decreases n,
{
    if n > 0 {
        lemma_matched_upto_extend(p, q, def, n - 1);
    }
}

/// The match decision is deterministic: it is a pure function of the
/// candidate pool and the definition. Pools that hold the same credentials,
/// position by position, always yield matched sets holding the same
/// credentials — no external state can change the outcome between two
/// invocations on the same inputs.
pub proof fn lemma_match_deterministic(
    p1: Seq<ParsedCredential>,
    p2: Seq<ParsedCredential>,
    def: PresentationDefinition,
)
    requires
        cred_seq_views_equal(p1, p2),
    ensures
        cred_seq_views_equal(matched_credentials(p1, def), matched_credentials(p2, def)),
{
    lemma_matched_upto_congruent(p1, p2, def, p1.len() as int);
}

/// Congruence of the matched prefix under content equality of the pools.
pub proof fn lemma_matched_upto_congruent(
    p1: Seq<ParsedCredential>,
    p2: Seq<ParsedCredential>,
    def: PresentationDefinition,
    n: int,
)
    requires
        cred_seq_views_equal(p1, p2),
        n <= p1.len(),
    ensures
        cred_seq_views_equal(matched_upto(p1, def, n), matched_upto(p2, def, n)),
    decreases n,
{
    if n > 0 {
        lemma_matched_upto_congruent(p1, p2, def, n - 1);
        lemma_matches_congruent(p1[n - 1], p2[n - 1], def);
    }
}

/// A matched credential is asked for something: if `c` satisfies `def`, and
/// every input descriptor of `def` carries at least one required field, the
/// requested fields of `c` are never empty.
pub proof fn lemma_matches_implies_requested_fields_nonempty(
    def: PresentationDefinition,
    c: ParsedCredential,
)
    requires
        credential_matches(c, def),
        forall|i: int| 0 <= i < def.input_descriptors@.len()
            ==> #[trigger] def.input_descriptors@[i].required_fields@.len() > 0,
    ensures
        requested_fields_spec(def, c).len() > 0,
{
    let k = choose|k: int|
        0 <= k < def.input_descriptors@.len() && descriptor_accepts(
            c,
            #[trigger] def.input_descriptors@[k],
        );
    lemma_requested_fields_upto_covers(
        def.input_descriptors@,
        c,
        k,
        def.input_descriptors@.len() as int,
    );
}

/// The requested fields over the first `n` descriptors cover the required
/// fields of any satisfied descriptor among them.
pub proof fn lemma_requested_fields_upto_covers(
    descs: Seq<InputDescriptor>,
    c: ParsedCredential,
    k: int,
    n: int,
)
    requires
        0 <= k < n,
        descriptor_accepts(c, descs[k]),
    ensures
        requested_fields_upto(descs, c, n).len() >= descs[k].required_fields@.len(),
    decreases n,
{
    if n > k + 1 {
        lemma_requested_fields_upto_covers(descs, c, k, n - 1);
    }
}

} // verus!
