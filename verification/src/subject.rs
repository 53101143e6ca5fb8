//! Subjects name what an envelope is about: `tenant/service/entity`.

use vstd::prelude::*;

use crate::envelope::CoreError;
use crate::text::{
    join_text, lemma_split_concat, lemma_split_free, lemma_split_join, lemma_split_pieces_free,
    split_text,
};

verus! {

/// A subject segment: non-empty and free of `/`.
pub open spec fn valid_segment(x: Seq<char>) -> bool {
    &&& x.len() > 0
    &&& forall|k: int| 0 <= k < x.len() ==> x[k] != '/'
}

/// The wire form `tenant/service/entity` of three segments.
pub open spec fn subject_wire(tenant: Seq<char>, service: Seq<char>, entity: Seq<char>) -> Seq<
    char,
> {
    tenant + seq!['/'] + service + seq!['/'] + entity
}

/// `text` is the wire form of the three given valid segments.
pub open spec fn parses_as(
    text: Seq<char>,
    tenant: Seq<char>,
    service: Seq<char>,
    entity: Seq<char>,
) -> bool {
    &&& valid_segment(tenant)
    &&& valid_segment(service)
    &&& valid_segment(entity)
    &&& text == subject_wire(tenant, service, entity)
}

/// `text` is the wire form of some subject.
pub open spec fn is_subject_text(text: Seq<char>) -> bool {
    exists|t: Seq<char>, s: Seq<char>, e: Seq<char>| parses_as(text, t, s, e)
}

/// The three segments of an envelope subject.
#[derive(Clone, Debug, PartialEq, Eq)]
pub struct Subject {
    pub tenant: String,
    pub service: String,
    pub entity: String,
}

impl Subject {
    /// All three segments are valid.
    pub open spec fn is_valid(&self) -> bool {
        valid_segment(self.tenant@) && valid_segment(self.service@) && valid_segment(self.entity@)
    }

    /// The wire text of this subject.
    pub open spec fn wire(&self) -> Seq<char> {
        subject_wire(self.tenant@, self.service@, self.entity@)
    }

    /// Parses `tenant/service/entity`: exactly three `/`-separated parts, none empty.
    pub fn parse(input: &str) -> (r: Result<Subject, CoreError>)
        ensures
            match r {
                Ok(subject) => parses_as(
                    input@,
                    subject.tenant@,
                    subject.service@,
                    subject.entity@,
                ),
                Err(err) => err == CoreError::InvalidSubject && !is_subject_text(input@),
            },
    {
        let n = input.unicode_len();
        let mut count: usize = 0;
        let mut first: usize = 0;
        let mut second: usize = 0;
        let mut i: usize = 0;
        let ghost s = input@;
        while i < n
            invariant
                n == s.len(),
                s == input@,
                i <= n,
                count <= 3,
                count == 0 ==> forall|j: int| 0 <= j < i ==> s[j] != '/',
                count >= 1 ==> first < i && s[first as int] == '/' && forall|j: int|
                    0 <= j < first ==> s[j] != '/',
                count == 1 ==> forall|j: int| first < j < i ==> s[j] != '/',
                count >= 2 ==> first < second < i && s[second as int] == '/' && forall|j: int|
                    first < j < second ==> s[j] != '/',
                count == 2 ==> forall|j: int| second < j < i ==> s[j] != '/',
                count == 3 ==> exists|j: int| second < j < i && s[j] == '/',
            decreases n - i,
        {
            let c = input.get_char(i);
            if c == '/' {
                if count == 0 {
                    first = i;
                    count = 1;
                } else if count == 1 {
                    second = i;
                    count = 2;
                } else if count == 2 {
                    assert(s[i as int] == '/');
                    count = 3;
                }
            }
            i = i + 1;
        }
        if count == 2 && first > 0 && second > first + 1 && second + 1 < n {
            let tenant = input.substring_char(0, first).to_owned();
            let service = input.substring_char(first + 1, second).to_owned();
            let entity = input.substring_char(second + 1, n).to_owned();
            assert(s =~= subject_wire(tenant@, service@, entity@));
            Ok(Subject { tenant, service, entity })
        } else {
            proof {
                assert forall|t: Seq<char>, sv: Seq<char>, e: Seq<char>| !#[trigger] parses_as(
                    s,
                    t,
                    sv,
                    e,
                ) by {
                    if parses_as(s, t, sv, e) {
                        lemma_wire_slashes(t, sv, e);
                        let a = t.len() as int;
                        let b = (t.len() + 1 + sv.len()) as int;
                        assert(s[a] == '/');
                        assert(s[b] == '/');
                        if count == 0 {
                            assert(false);
                        } else if count == 1 {
                            assert(first == a);
                            assert(false);
                        } else if count == 2 {
                            assert(first == a);
                            assert(second == b);
                            assert(false);
                        } else {
                            assert(first == a);
                            assert(second == b);
                            let j = choose|j: int| second < j < i && s[j] == '/';
                            assert(false);
                        }
                    }
                }
            }
            Err(CoreError::InvalidSubject)
        }
    }

    /// The wire text `tenant/service/entity`.
    pub fn as_wire(&self) -> (wire: String)
        ensures
            wire@ == self.wire(),
    {
        let mut out = self.tenant.clone();
        out.append("/");
        out.append(self.service.as_str());
        out.append("/");
        out.append(self.entity.as_str());
        proof {
            reveal_strlit("/");
        }
        assert(out@ =~= self.wire());
        out
    }
}

impl core::str::FromStr for Subject {
    type Err = CoreError;

    fn from_str(input: &str) -> (r: Result<Subject, CoreError>)
        ensures
            match r {
                Ok(subject) => parses_as(
                    input@,
                    subject.tenant@,
                    subject.service@,
                    subject.entity@,
                ),
                Err(err) => err == CoreError::InvalidSubject && !is_subject_text(input@),
            },
    {
        Subject::parse(input)
    }
}

/// Where the slashes of a wire text over valid segments stand.
pub proof fn lemma_wire_slashes(tenant: Seq<char>, service: Seq<char>, entity: Seq<char>)
    requires
        valid_segment(tenant),
        valid_segment(service),
        valid_segment(entity),
    ensures
        ({
            let w = subject_wire(tenant, service, entity);
            let a = tenant.len() as int;
            let b = (tenant.len() + 1 + service.len()) as int;
            &&& w.len() == tenant.len() + service.len() + entity.len() + 2
            &&& forall|j: int| 0 <= j < w.len() ==> (#[trigger] w[j] == '/' <==> (j == a || j == b))
        }),
{
    let w = subject_wire(tenant, service, entity);
    let a = tenant.len() as int;
    let b = (tenant.len() + 1 + service.len()) as int;
    assert forall|j: int| 0 <= j < w.len() implies (#[trigger] w[j] == '/' <==> (j == a || j
        == b)) by {
        if j < a {
            assert(w[j] == tenant[j]);
        } else if j == a {
        } else if j < b {
            assert(w[j] == service[j - a - 1]);
        } else if j == b {
        } else {
            assert(w[j] == entity[j - b - 1]);
        }
    }
}

/// Law: a subject's wire text parses back into exactly its own segments, and
/// only into those.
pub proof fn law_subject_wire_round_trip(
    subject: Subject,
    tenant: Seq<char>,
    service: Seq<char>,
    entity: Seq<char>,
)
    requires
        subject.is_valid(),
    ensures
        parses_as(subject.wire(), subject.tenant@, subject.service@, subject.entity@),
        parses_as(subject.wire(), tenant, service, entity) ==> (tenant == subject.tenant@
            && service == subject.service@ && entity == subject.entity@),
{
    if parses_as(subject.wire(), tenant, service, entity) {
        let w = subject.wire();
        lemma_wire_slashes(subject.tenant@, subject.service@, subject.entity@);
        lemma_wire_slashes(tenant, service, entity);
        let a1 = subject.tenant@.len() as int;
        let a2 = tenant.len() as int;
        let b1 = (subject.tenant@.len() + 1 + subject.service@.len()) as int;
        let b2 = (tenant.len() + 1 + service.len()) as int;
        assert(w[a2] == '/');
        assert(w[a1] == '/');
        assert(a1 == a2);
        assert(w[b2] == '/');
        assert(w[b1] == '/');
        assert(b1 == b2);
        assert(tenant =~= w.subrange(0, a2));
        assert(subject.tenant@ =~= w.subrange(0, a1));
        assert(service =~= w.subrange(a2 + 1, b2));
        assert(subject.service@ =~= w.subrange(a1 + 1, b1));
        assert(entity =~= w.subrange(b2 + 1, w.len() as int));
        assert(subject.entity@ =~= w.subrange(b1 + 1, w.len() as int));
    }
}

/// A text is a subject exactly when splitting it at `/` gives three
/// non-empty parts; those parts are then its tenant, service and entity.
pub proof fn law_subject_is_three_parts(input: Seq<char>, tenant: Seq<char>, service: Seq<char>, entity: Seq<char>)
    ensures
        is_subject_text(input) <==> ({
            let parts = split_text(input, '/');
            &&& parts.len() == 3
            &&& forall|i: int| 0 <= i < 3 ==> (#[trigger] parts[i]).len() > 0
        }),
        parses_as(input, tenant, service, entity) ==> split_text(input, '/') == seq![
            tenant,
            service,
            entity,
        ],
{
    if parses_as(input, tenant, service, entity) {
        lemma_parts_of_wire(tenant, service, entity);
    }
    if is_subject_text(input) {
        let (t, s, e) = choose|t: Seq<char>, s: Seq<char>, e: Seq<char>| parses_as(input, t, s, e);
        lemma_parts_of_wire(t, s, e);
        let parts = split_text(input, '/');
        assert(parts[0] == t && parts[1] == s && parts[2] == e);
    }
    let parts = split_text(input, '/');
    if parts.len() == 3 && forall|i: int| 0 <= i < 3 ==> (#[trigger] parts[i]).len() > 0 {
        lemma_split_join(input, '/');
        lemma_split_pieces_free(input, '/');
        let two = parts.drop_last();
        assert(two.len() == 2);
        assert(two.drop_last() =~= seq![parts[0]]);
        assert(join_text(two.drop_last(), seq!['/']) == parts[0]);
        assert(two.last() == parts[1]);
        assert(join_text(two, seq!['/']) == join_text(two.drop_last(), seq!['/']) + seq!['/']
            + two.last());
        assert(join_text(two, seq!['/']) == parts[0] + seq!['/'] + parts[1]);
        assert(input == parts[0] + seq!['/'] + parts[1] + seq!['/'] + parts[2]);
        assert(valid_segment(parts[0])) by {
            assert(parts[0].len() > 0);
        }
        assert(valid_segment(parts[1])) by {
            assert(parts[1].len() > 0);
        }
        assert(valid_segment(parts[2])) by {
            assert(parts[2].len() > 0);
        }
        assert(parses_as(input, parts[0], parts[1], parts[2]));
    }
}

proof fn lemma_parts_of_wire(tenant: Seq<char>, service: Seq<char>, entity: Seq<char>)
    requires
        valid_segment(tenant),
        valid_segment(service),
        valid_segment(entity),
    ensures
        split_text(subject_wire(tenant, service, entity), '/') == seq![tenant, service, entity],
{
    lemma_split_free(tenant, '/');
    lemma_split_free(service, '/');
    lemma_split_free(entity, '/');
    lemma_split_concat(service, entity, '/');
    lemma_split_concat(tenant, service + seq!['/'] + entity, '/');
    assert(subject_wire(tenant, service, entity) =~= tenant + seq!['/'] + (service + seq!['/']
        + entity));
    assert(split_text(service + seq!['/'] + entity, '/') =~= seq![service, entity]);
    assert(seq![tenant] + seq![service, entity] =~= seq![tenant, service, entity]);
}

} // verus!
