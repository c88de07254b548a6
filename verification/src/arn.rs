//! Identifier extraction from fully qualified resource names.
//!
//! A name handed back by a lookup must match one anchored template per
//! resource type:
//!
//! * cluster: `arn:aws:ecs:<region>:<account>:cluster/<id>`
//! * service: `arn:aws:ecs:<region>:<account>:service/<parent>/<id>`
//! * task: `arn:aws:ecs:<region>:<account>:task/<parent>/<id>`
//!
//! where `<region>` is any run of characters free of `:`, `<account>` is
//! exactly twelve decimal digits, `<parent>` is the short identifier of the
//! owning cluster (given by the caller, matched literally), and `<id>` is the
//! rest of the string, which extraction returns. Matching is anchored at both
//! ends; a name that does not decompose this way is rejected as
//! [`RunError::MalformedIdentifier`]. Containers never pass through here:
//! their names arrive plain from a describe-style call.

use crate::errors::RunError;
use vstd::prelude::*;

verus! {

/// A decimal digit.
pub open spec fn is_digit(c: char) -> bool {
    ('0' as u32) <= (c as u32) && (c as u32) <= ('9' as u32)
}

/// A region segment: any characters except the `:` separator.
pub open spec fn wf_region(region: Seq<char>) -> bool {
    forall|i: int| 0 <= i < region.len() ==> region[i] != ':'
}

/// An account segment: exactly twelve decimal digits.
pub open spec fn wf_account(account: Seq<char>) -> bool {
    account.len() == 12 && (forall|i: int| 0 <= i < account.len() ==> is_digit(account[i]))
}

/// The fixed partition/service prefix every recognised name starts with.
pub open spec fn arn_prefix() -> Seq<char> {
    "arn:aws:ecs:"@
}

/// A fully qualified name: the fixed prefix, a region, a colon, an account,
/// then a per-type marker and finally the short identifier.
pub open spec fn arn_template(
    region: Seq<char>,
    account: Seq<char>,
    marker: Seq<char>,
    id: Seq<char>,
) -> Seq<char> {
    arn_prefix() + region + seq![':'] + account + marker + id
}

/// The marker of a cluster name: the short identifier follows it directly.
pub open spec fn cluster_marker() -> Seq<char> {
    ":cluster/"@
}

/// The marker of a service name owned by the cluster `parent`.
pub open spec fn service_marker(parent: Seq<char>) -> Seq<char> {
    ":service/"@ + parent + "/"@
}

/// The marker of a task name owned by the cluster `parent`.
pub open spec fn task_marker(parent: Seq<char>) -> Seq<char> {
    ":task/"@ + parent + "/"@
}

/// `s` is a well-formed name for the template with the given marker.
pub open spec fn matches_template(s: Seq<char>, marker: Seq<char>) -> bool {
    exists|region: Seq<char>, account: Seq<char>, id: Seq<char>|
        wf_region(region) && wf_account(account) && s == #[trigger] arn_template(
            region,
            account,
            marker,
            id,
        )
}

/// `id` is the short identifier of the well-formed name `s` under the
/// template with the given marker.
pub open spec fn is_extraction_of(s: Seq<char>, marker: Seq<char>, id: Seq<char>) -> bool {
    exists|region: Seq<char>, account: Seq<char>|
        wf_region(region) && wf_account(account) && s == #[trigger] arn_template(
            region,
            account,
            marker,
            id,
        )
}

/// `pat` occurs in `s` at position `at`.
pub open spec fn occurs_at(s: Seq<char>, pat: Seq<char>, at: int) -> bool {
    0 <= at && at + pat.len() <= s.len() && s.subrange(at, at + pat.len()) == pat
}

/// The resource types whose names carry an extractable identifier.
#[derive(Clone, Copy, Debug, PartialEq, Eq)]
pub enum ResourceKind {
    Cluster,
    Service,
    Task,
}

/// The view of an optional parent filter.
pub open spec fn parent_view(parent: Option<&str>) -> Option<Seq<char>> {
    match parent {
        Some(p) => Some(p@),
        None => None,
    }
}

/// The marker a resource type selects, given its parent filter. A cluster
/// takes no parent; a service or task takes the owning cluster's identifier.
pub open spec fn marker_of(kind: ResourceKind, parent: Option<Seq<char>>) -> Seq<char> {
    match (kind, parent) {
        (ResourceKind::Cluster, _) => cluster_marker(),
        (ResourceKind::Service, Some(p)) => service_marker(p),
        (ResourceKind::Task, Some(p)) => task_marker(p),
        (_, None) => Seq::empty(),
    }
}

/// A well-formed name decomposes in exactly one way: the region runs from the
/// fixed prefix to the first `:` after it, the account is the twelve digits
/// behind that colon, the marker follows, and the short identifier is
/// everything after the marker, to the end of the string.
pub proof fn lemma_arn_shape(
    s: Seq<char>,
    marker: Seq<char>,
    region: Seq<char>,
    account: Seq<char>,
    id: Seq<char>,
)
    requires
        wf_region(region),
        wf_account(account),
        s == arn_template(region, account, marker, id),
    ensures
        s.len() == 25 + region.len() + marker.len() + id.len(),
        occurs_at(s, arn_prefix(), 0),
        forall|k: int| 12 <= k < 12 + region.len() ==> s[k] != ':',
        s[12 + region.len() as int] == ':',
        region == s.subrange(12, 12 + region.len() as int),
        account == s.subrange(13 + region.len() as int, 25 + region.len() as int),
        forall|k: int| 13 + region.len() <= k < 25 + region.len() ==> is_digit(s[k]),
        occurs_at(s, marker, 25 + region.len() as int),
        id == s.subrange(25 + region.len() + marker.len() as int, s.len() as int),
{
    reveal_strlit("arn:aws:ecs:");
    let rl = region.len() as int;
    let ml = marker.len() as int;
    assert(arn_prefix().len() == 12);
    assert(s.len() == 25 + rl + ml + id.len());
    assert(s.subrange(0, 12) =~= arn_prefix());
    assert(s.subrange(12, 12 + rl) =~= region);
    assert(s[12 + rl] == ':');
    assert(s.subrange(13 + rl, 25 + rl) =~= account);
    assert(s.subrange(25 + rl, 25 + rl + ml) =~= marker);
    assert(s.subrange(25 + rl + ml, s.len() as int) =~= id);
    assert forall|k: int| 12 <= k < 12 + rl implies s[k] != ':' by {
        assert(s[k] == region[k - 12]);
    }
    assert forall|k: int| 13 + rl <= k < 25 + rl implies is_digit(s[k]) by {
        assert(s[k] == account[k - 13 - rl]);
    }
}

/// What extraction returns is exactly the substring after the marker: the
/// marker occurs once, right before the identifier, and the identifier runs
/// from there to the end of the name. For a cluster the marker is
/// `:cluster/`; for a service or task it is `:service/` or `:task/` followed
/// by the parent identifier and `/`.
pub proof fn lemma_extracted_id_is_suffix(s: Seq<char>, marker: Seq<char>, id: Seq<char>)
    requires
        is_extraction_of(s, marker, id),
    ensures
        25 + marker.len() + id.len() <= s.len(),
        occurs_at(s, marker, s.len() - marker.len() - id.len()),
        id == s.subrange(s.len() - id.len(), s.len() as int),
{
    let (region, account) = choose|region: Seq<char>, account: Seq<char>|
        wf_region(region) && wf_account(account) && s == #[trigger] arn_template(
            region,
            account,
            marker,
            id,
        );
    lemma_arn_shape(s, marker, region, account, id);
}

/// Two well-formed readings of the same name put the colon that ends the
/// region at the same place, so their regions have the same length.
proof fn lemma_region_len_agrees(
    s: Seq<char>,
    m1: Seq<char>,
    r1: Seq<char>,
    a1: Seq<char>,
    i1: Seq<char>,
    m2: Seq<char>,
    r2: Seq<char>,
    a2: Seq<char>,
    i2: Seq<char>,
)
    requires
        wf_region(r1),
        wf_account(a1),
        s == arn_template(r1, a1, m1, i1),
        wf_region(r2),
        wf_account(a2),
        s == arn_template(r2, a2, m2, i2),
    ensures
        r1.len() == r2.len(),
{
    lemma_arn_shape(s, m1, r1, a1, i1);
    lemma_arn_shape(s, m2, r2, a2, i2);
    if r1.len() < r2.len() {
        assert(s[12 + r1.len() as int] == ':');
        assert(s[12 + r1.len() as int] != ':');
    } else if r2.len() < r1.len() {
        assert(s[12 + r2.len() as int] == ':');
        assert(s[12 + r2.len() as int] != ':');
    }
}

/// A name matching a template does so in exactly one way: the region, the
/// account and the extracted identifier are determined by the name and the
/// marker alone.
pub proof fn lemma_decomposition_unique(
    s: Seq<char>,
    marker: Seq<char>,
    r1: Seq<char>,
    a1: Seq<char>,
    id1: Seq<char>,
    r2: Seq<char>,
    a2: Seq<char>,
    id2: Seq<char>,
)
    requires
        wf_region(r1),
        wf_account(a1),
        s == arn_template(r1, a1, marker, id1),
        wf_region(r2),
        wf_account(a2),
        s == arn_template(r2, a2, marker, id2),
    ensures
        r1 == r2,
        a1 == a2,
        id1 == id2,
{
    lemma_region_len_agrees(s, marker, r1, a1, id1, marker, r2, a2, id2);
    lemma_arn_shape(s, marker, r1, a1, id1);
    lemma_arn_shape(s, marker, r2, a2, id2);
}

/// Extraction is injective per template: with the resource type, the region,
/// the account and (for services and tasks) the parent all fixed, two
/// well-formed names yield the same short identifier only if the names are
/// identical. Names that differ in region or account may share an identifier,
/// so nothing is claimed across template instantiations.
pub proof fn lemma_extraction_injective(
    region: Seq<char>,
    account: Seq<char>,
    marker: Seq<char>,
    id1: Seq<char>,
    id2: Seq<char>,
)
    requires
        wf_region(region),
        wf_account(account),
    ensures
        arn_template(region, account, marker, id1) == arn_template(region, account, marker, id2)
            <==> id1 == id2,
{
    if arn_template(region, account, marker, id1) == arn_template(region, account, marker, id2) {
        lemma_decomposition_unique(
            arn_template(region, account, marker, id1),
            marker,
            region,
            account,
            id1,
            region,
            account,
            id2,
        );
    }
}

/// Two templates matched by the same name agree wherever both markers are
/// defined: the markers start right after the account, whose position the
/// name fixes.
proof fn lemma_markers_agree_at(s: Seq<char>, m1: Seq<char>, m2: Seq<char>, k: int)
    requires
        matches_template(s, m1),
        matches_template(s, m2),
        0 <= k < m1.len(),
        k < m2.len(),
    ensures
        m1[k] == m2[k],
{
    let (r1, a1, i1) = choose|r: Seq<char>, a: Seq<char>, i: Seq<char>|
        wf_region(r) && wf_account(a) && s == #[trigger] arn_template(r, a, m1, i);
    let (r2, a2, i2) = choose|r: Seq<char>, a: Seq<char>, i: Seq<char>|
        wf_region(r) && wf_account(a) && s == #[trigger] arn_template(r, a, m2, i);
    lemma_region_len_agrees(s, m1, r1, a1, i1, m2, r2, a2, i2);
    lemma_arn_shape(s, m1, r1, a1, i1);
    lemma_arn_shape(s, m2, r2, a2, i2);
    let at = 25 + r1.len() as int;
    assert(m1[k] == s.subrange(at, at + m1.len() as int)[k]);
    assert(m2[k] == s.subrange(at, at + m2.len() as int)[k]);
}

/// Extraction is type-exclusive: a name never matches the templates of two
/// distinct resource types, whatever parent filters the service and task
/// templates carry. A cluster name is rejected by the service and task
/// templates, and so on around.
pub proof fn lemma_types_exclusive(s: Seq<char>, parent_a: Seq<char>, parent_b: Seq<char>)
    ensures
        !(matches_template(s, cluster_marker()) && matches_template(s, service_marker(parent_a))),
        !(matches_template(s, cluster_marker()) && matches_template(s, task_marker(parent_a))),
        !(matches_template(s, service_marker(parent_a)) && matches_template(
            s,
            task_marker(parent_b),
        )),
{
    reveal_strlit(":cluster/");
    reveal_strlit(":service/");
    reveal_strlit(":task/");
    assert(cluster_marker()[1] == 'c');
    assert(service_marker(parent_a)[1] == 's');
    assert(task_marker(parent_a)[1] == 't' && task_marker(parent_b)[1] == 't');
    if matches_template(s, cluster_marker()) && matches_template(s, service_marker(parent_a)) {
        lemma_markers_agree_at(s, cluster_marker(), service_marker(parent_a), 1);
    }
    if matches_template(s, cluster_marker()) && matches_template(s, task_marker(parent_a)) {
        lemma_markers_agree_at(s, cluster_marker(), task_marker(parent_a), 1);
    }
    if matches_template(s, service_marker(parent_a)) && matches_template(
        s,
        task_marker(parent_b),
    ) {
        lemma_markers_agree_at(s, service_marker(parent_a), task_marker(parent_b), 1);
    }
}

/// Under a well-formed reading, a first colon at or after the fixed prefix
/// sits exactly at the end of the region.
proof fn lemma_first_colon_ends_region(
    s: Seq<char>,
    marker: Seq<char>,
    r: Seq<char>,
    a: Seq<char>,
    id: Seq<char>,
    j: int,
)
    requires
        wf_region(r),
        wf_account(a),
        s == arn_template(r, a, marker, id),
        12 <= j < s.len(),
        s[j] == ':',
        forall|k: int| 12 <= k < j ==> s[k] != ':',
    ensures
        j == 12 + r.len(),
{
    lemma_arn_shape(s, marker, r, a, id);
    if j < 12 + r.len() {
        assert(s[j] != ':');
    } else if 12 + r.len() < j {
        assert(s[12 + r.len() as int] != ':');
    }
}

/// Whether `pat` occurs in `s` at position `at`.
fn has_at(s: &str, at: usize, pat: &str) -> (b: bool)
    ensures
        b == occurs_at(s@, pat@, at as int),
{
    let n = s.unicode_len();
    let m = pat.unicode_len();
    if at > n || m > n - at {
        return false;
    }
    let mut i: usize = 0;
    while i < m
        invariant
            at + m <= n,
            n == s@.len(),
            m == pat@.len(),
            0 <= i <= m,
            forall|k: int| 0 <= k < i ==> s@[at + k] == pat@[k],
        decreases m - i,
    {
        if s.get_char(at + i) != pat.get_char(i) {
            proof {
                let sub = s@.subrange(at as int, at as int + m as int);
                assert(sub[i as int] == s@[at + i]);
            }
            return false;
        }
        i += 1;
    }
    proof {
        assert(s@.subrange(at as int, at as int + m as int) =~= pat@);
    }
    true
}

/// Parses `s` against the anchored template with the given marker and, on a
/// match, returns the short identifier: the suffix after the marker. Any
/// string that does not match the whole template is rejected.
fn extract_after_marker(s: &str, marker: &str) -> (res: Result<String, RunError>)
    ensures
        res is Ok <==> matches_template(s@, marker@),
        res matches Ok(id) ==> is_extraction_of(s@, marker@, id@),
        res matches Err(e) ==> e == RunError::MalformedIdentifier,
{
    proof {
        reveal_strlit("arn:aws:ecs:");
    }
    let n = s.unicode_len();
    if !has_at(s, 0, "arn:aws:ecs:") {
        proof {
            if matches_template(s@, marker@) {
                let (r, a, id) = choose|r: Seq<char>, a: Seq<char>, id: Seq<char>|
                    wf_region(r) && wf_account(a) && s@ == #[trigger] arn_template(
                        r,
                        a,
                        marker@,
                        id,
                    );
                lemma_arn_shape(s@, marker@, r, a, id);
            }
        }
        return Err(RunError::MalformedIdentifier);
    }
    // the first `:` at or after the end of the fixed prefix ends the region
    let mut j: usize = 12;
    while j < n && s.get_char(j) != ':'
        invariant
            12 <= j <= n,
            n == s@.len(),
            s@.len() >= 12,
            forall|k: int| 12 <= k < j ==> s@[k] != ':',
        decreases n - j,
    {
        j += 1;
    }
    if j == n {
        proof {
            if matches_template(s@, marker@) {
                let (r, a, id) = choose|r: Seq<char>, a: Seq<char>, id: Seq<char>|
                    wf_region(r) && wf_account(a) && s@ == #[trigger] arn_template(
                        r,
                        a,
                        marker@,
                        id,
                    );
                lemma_arn_shape(s@, marker@, r, a, id);
                assert(s@[12 + r.len() as int] == ':');
            }
        }
        return Err(RunError::MalformedIdentifier);
    }
    // twelve account digits between this colon and the marker
    if n - j < 13 {
        proof {
            if matches_template(s@, marker@) {
                let (r, a, id) = choose|r: Seq<char>, a: Seq<char>, id: Seq<char>|
                    wf_region(r) && wf_account(a) && s@ == #[trigger] arn_template(
                        r,
                        a,
                        marker@,
                        id,
                    );
                lemma_first_colon_ends_region(s@, marker@, r, a, id, j as int);
                lemma_arn_shape(s@, marker@, r, a, id);
            }
        }
        return Err(RunError::MalformedIdentifier);
    }
    let mut k: usize = 0;
    while k < 12
        invariant
            n == s@.len(),
            12 <= j,
            j + 13 <= n,
            0 <= k <= 12,
            s@[j as int] == ':',
            forall|t: int| 12 <= t < j ==> s@[t] != ':',
            forall|t: int| 0 <= t < k ==> is_digit(#[trigger] s@[j + 1 + t]),
        decreases 12 - k,
    {
        let c = s.get_char(j + 1 + k);
        if (c as u32) < ('0' as u32) || (c as u32) > ('9' as u32) {
            proof {
                if matches_template(s@, marker@) {
                    let (r, a, id) = choose|r: Seq<char>, a: Seq<char>, id: Seq<char>|
                        wf_region(r) && wf_account(a) && s@ == #[trigger] arn_template(
                            r,
                            a,
                            marker@,
                            id,
                        );
                    lemma_first_colon_ends_region(s@, marker@, r, a, id, j as int);
                    lemma_arn_shape(s@, marker@, r, a, id);
                    assert(is_digit(s@[j + 1 + k]));
                }
            }
            return Err(RunError::MalformedIdentifier);
        }
        k += 1;
    }
    // the marker itself, anchored right after the account
    if !has_at(s, j + 13, marker) {
        proof {
            if matches_template(s@, marker@) {
                let (r, a, id) = choose|r: Seq<char>, a: Seq<char>, id: Seq<char>|
                    wf_region(r) && wf_account(a) && s@ == #[trigger] arn_template(
                        r,
                        a,
                        marker@,
                        id,
                    );
                lemma_first_colon_ends_region(s@, marker@, r, a, id, j as int);
                lemma_arn_shape(s@, marker@, r, a, id);
            }
        }
        return Err(RunError::MalformedIdentifier);
    }
    let mlen = marker.unicode_len();
    let start = j + 13 + mlen;
    let id = s.substring_char(start, n).to_owned();
    proof {
        let jj = j as int;
        let r = s@.subrange(12, jj);
        let a = s@.subrange(jj + 1, jj + 13);
        assert forall|i: int| 0 <= i < r.len() implies r[i] != ':' by {
            assert(r[i] == s@[12 + i]);
        }
        assert forall|i: int| 0 <= i < a.len() implies is_digit(a[i]) by {
            assert(a[i] == s@[jj + 1 + i]);
        }
        let t = arn_template(r, a, marker@, id@);
        assert forall|x: int| 0 <= x < s@.len() implies t[x] == s@[x] by {
            reveal_strlit("arn:aws:ecs:");
            if x < 12 {
                assert(t[x] == arn_prefix()[x]);
                assert(arn_prefix()[x] == s@.subrange(0, 12)[x]);
            } else if x < jj {
                assert(t[x] == r[x - 12]);
            } else if x == jj {
                assert(t[x] == ':');
            } else if x < jj + 13 {
                assert(t[x] == a[x - jj - 1]);
            } else if x < jj + 13 + marker@.len() {
                let sub = s@.subrange(jj + 13, jj + 13 + marker@.len() as int);
                assert(t[x] == marker@[x - jj - 13]);
                assert(marker@[x - jj - 13] == sub[x - jj - 13]);
            } else {
                assert(t[x] == id@[x - jj - 13 - marker@.len()]);
            }
        }
        assert(s@ =~= t);
        assert(matches_template(s@, marker@));
        assert(is_extraction_of(s@, marker@, id@));
    }
    let ghost idg = id@;
    let res: Result<String, RunError> = Ok(id);
    proof {
        assert(res matches Ok(idv) ==> idv@ == idg);
    }
    res
}

/// Extracts the short, human-meaningful identifier out of a fully qualified
/// resource name.
///
/// The name must match the anchored template for `kind`, with `parent` (for a
/// service or a task) matched literally between the type marker and the
/// identifier; anything else is rejected as a malformed identifier, which
/// with a well-behaved lookup backend indicates a broken service contract,
/// not a recoverable user error.
pub fn extract(resource_name: &str, kind: ResourceKind, parent: Option<&str>) -> (res: Result<
    String,
    RunError,
>)
    requires
        (parent is Some) <==> !(kind is Cluster),
    ensures
        res is Ok <==> matches_template(resource_name@, marker_of(kind, parent_view(parent))),
        res matches Ok(id) ==> is_extraction_of(
            resource_name@,
            marker_of(kind, parent_view(parent)),
            id@,
        ),
        res matches Err(e) ==> e == RunError::MalformedIdentifier,
{
    let marker: String = match (kind, parent) {
        (ResourceKind::Cluster, _) => String::from_str(":cluster/"),
        (ResourceKind::Service, Some(p)) => {
            let mut m = String::from_str(":service/");
            m.append(p);
            m.append("/");
            m
        },
        (ResourceKind::Task, Some(p)) => {
            let mut m = String::from_str(":task/");
            m.append(p);
            m.append("/");
            m
        },
        _ => {
            proof {
                assert(false);
            }
            String::new()
        },
    };
    assert(marker@ == marker_of(kind, parent_view(parent)));
    extract_after_marker(resource_name, marker.as_str())
}

} // verus!
