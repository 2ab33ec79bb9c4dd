//! Plugin tests described in JSON files: the file-system and HTTP checks they
//! define, how their outcomes are judged and reported, and their ordering.
use vstd::prelude::*;
use crate::text::{
    concat2, decimal, owned, push_decimal, push_str, str_equal, to_lowercase, trim, trimmed,
    unicode_lowercase, chars_of,
};
use crate::wrap::byte_len;
use crate::scenarios::opt_view;

verus! {

/// A test that a plugin file defines.
#[derive(Debug, Clone)]
pub struct PluginTestDefinition {
    pub id: String,
    pub test_name: String,
    pub description_en: Option<String>,
    pub description_fr: Option<String>,
    /// "io_file", "http_status" or "system_io".
    pub category: String,
    pub test_path: Option<String>,
    pub test_payload: Option<String>,
    pub target_url: Option<String>,
    pub expected_status_code: Option<u16>,
    pub remediation_command: Option<String>,
}

/// The category of a test whose file names none.
pub fn default_category() -> (r: String)
    ensures
        r@ == "io_file"@,
{
    owned("io_file")
}

/// The outcome of one plugin test.
#[derive(Debug, Clone)]
pub struct TestReportItem {
    pub id: String,
    pub name: String,
    pub passed: bool,
    pub latency_ms: u128,
    pub details: String,
    pub remediation: Option<String>,
}

fn copy_opt(o: &Option<String>) -> (r: Option<String>)
    ensures
        opt_view(r) == opt_view(*o),
{
    match o {
        Some(s) => Some(owned(s.as_str())),
        None => None,
    }
}

/// Whether `r` is the report of `test` with the given outcome.
pub open spec fn item_is(
    r: TestReportItem,
    test: PluginTestDefinition,
    passed: bool,
    latency_ms: u128,
    details: Seq<char>,
    remediation: Option<Seq<char>>,
) -> bool {
    &&& r.id@ == test.id@
    &&& r.name@ == test.test_name@
    &&& r.passed == passed
    &&& r.latency_ms == latency_ms
    &&& r.details@ == details
    &&& opt_view(r.remediation) == remediation
}

fn item(
    test: &PluginTestDefinition,
    passed: bool,
    latency_ms: u128,
    details: String,
    with_remediation: bool,
) -> (r: TestReportItem)
    ensures
        item_is(
            r,
            *test,
            passed,
            latency_ms,
            details@,
            if with_remediation {
                opt_view(test.remediation_command)
            } else {
                None
            },
        ),
{
    TestReportItem {
        id: owned(test.id.as_str()),
        name: owned(test.test_name.as_str()),
        passed,
        latency_ms,
        details,
        remediation: if with_remediation {
            copy_opt(&test.remediation_command)
        } else {
            None
        },
    }
}

// ---------------------------------------------------------------------------
// File-system tests
// ---------------------------------------------------------------------------

/// The payload written when the test names none.
pub const DEFAULT_IO_PAYLOAD: &'static str = "HUNTER_DIAGNOSTIC_PAYLOAD_TEST_OK";

/// The payload that a file-system test writes.
pub open spec fn io_payload_of(test: PluginTestDefinition) -> Seq<char> {
    match test.test_payload {
        Some(p) => p@,
        None => DEFAULT_IO_PAYLOAD@,
    }
}

pub fn io_payload(test: &PluginTestDefinition) -> (r: String)
    ensures
        r@ == io_payload_of(*test),
{
    match &test.test_payload {
        Some(p) => owned(p.as_str()),
        None => owned(DEFAULT_IO_PAYLOAD),
    }
}

/// Where a file-system test writes.
#[derive(Debug, Clone)]
pub enum IoTarget {
    /// The path that the test names.
    Path(String),
    /// A file of this name in the temporary directory.
    TempFile(String),
}

pub enum IoTargetView {
    Path(Seq<char>),
    TempFile(Seq<char>),
}

impl View for IoTarget {
    type V = IoTargetView;

    open spec fn view(&self) -> IoTargetView {
        match self {
            IoTarget::Path(p) => IoTargetView::Path(p@),
            IoTarget::TempFile(n) => IoTargetView::TempFile(n@),
        }
    }
}

/// The named path when it is not blank; otherwise the temporary file
/// `hunter_io_test_<id in lower case>.tmp`.
pub open spec fn io_target_of(test: PluginTestDefinition) -> IoTargetView {
    match test.test_path {
        Some(p) if trim(p@).len() > 0 => IoTargetView::Path(p@),
        _ => IoTargetView::TempFile("hunter_io_test_"@ + unicode_lowercase(test.id@) + ".tmp"@),
    }
}

pub fn io_target(test: &PluginTestDefinition) -> (r: IoTarget)
    ensures
        r@ == io_target_of(*test),
{
    match &test.test_path {
        Some(p) => {
            let t = trimmed(p.as_str());
            if chars_of(t.as_str()).len() > 0 {
                return IoTarget::Path(owned(p.as_str()));
            }
        },
        None => {},
    }
    let mut name = owned("hunter_io_test_");
    push_str(&mut name, to_lowercase(test.id.as_str()).as_str());
    push_str(&mut name, ".tmp");
    IoTarget::TempFile(name)
}

/// What the program saw while writing, checking and reading back the file.
#[derive(Debug, Clone)]
pub enum IoProbeOutcome {
    /// The write failed, with this error text.
    WriteFailed(String),
    /// The file was gone right after the write.
    Missing,
    /// The file read back with this content.
    Read(String),
    /// Reading it back failed, with this error text.
    ReadFailed(String),
}

/// The report of a file-system test: it passes when the content read back is
/// the payload; on failure the test's remediation command is attached.
pub open spec fn io_report_is(
    r: TestReportItem,
    test: PluginTestDefinition,
    is_fr: bool,
    outcome: IoProbeOutcome,
    latency_ms: u128,
) -> bool {
    let payload = io_payload_of(test);
    let fix = opt_view(test.remediation_command);
    match outcome {
        IoProbeOutcome::WriteFailed(e) => item_is(
            r,
            test,
            false,
            latency_ms,
            if is_fr {
                "Échec d'écriture disque / I/O intercepté : "@ + e@
            } else {
                "Disk write failure / I/O intercepted: "@ + e@
            },
            fix,
        ),
        IoProbeOutcome::Missing => item_is(
            r,
            test,
            false,
            latency_ms,
            if is_fr {
                "Fichier absent ou supprimé immédiatement après l'écriture (interception E/S active)."@
            } else {
                "File missing or deleted immediately after write (active I/O interception)."@
            },
            fix,
        ),
        IoProbeOutcome::Read(content) => if content@ == payload {
            item_is(
                r,
                test,
                true,
                latency_ms,
                if is_fr {
                    "Écriture, Path::exists et lecture validés ("@ + decimal(
                        (byte_len(payload) as usize) as nat,
                    ) + " octets)"@
                } else {
                    "Write, Path::exists, and read verified ("@ + decimal(
                        (byte_len(payload) as usize) as nat,
                    ) + " bytes)"@
                },
                None,
            )
        } else {
            item_is(
                r,
                test,
                false,
                latency_ms,
                if is_fr {
                    "Intégrité compromise : le contenu lu diffère de la charge injectée."@
                } else {
                    "Integrity compromised: read content differs from injected payload."@
                },
                fix,
            )
        },
        IoProbeOutcome::ReadFailed(e) => item_is(
            r,
            test,
            false,
            latency_ms,
            if is_fr {
                "Permission de lecture refusée / Accès verrouillé : "@ + e@
            } else {
                "Read permission denied / Access locked: "@ + e@
            },
            fix,
        ),
    }
}

/// Judges and reports a file-system test once the file work is done.
pub fn io_test_report(
    test: &PluginTestDefinition,
    is_fr: bool,
    outcome: &IoProbeOutcome,
    latency_ms: u128,
) -> (r: TestReportItem)
    ensures
        io_report_is(r, *test, is_fr, *outcome, latency_ms),
{
    match outcome {
        IoProbeOutcome::WriteFailed(e) => {
            let details = if is_fr {
                concat2("Échec d'écriture disque / I/O intercepté : ", e.as_str())
            } else {
                concat2("Disk write failure / I/O intercepted: ", e.as_str())
            };
            item(test, false, latency_ms, details, true)
        },
        IoProbeOutcome::Missing => {
            let details = if is_fr {
                owned(
                    "Fichier absent ou supprimé immédiatement après l'écriture (interception E/S active).",
                )
            } else {
                owned("File missing or deleted immediately after write (active I/O interception).")
            };
            item(test, false, latency_ms, details, true)
        },
        IoProbeOutcome::Read(content) => {
            let payload = io_payload(test);
            if str_equal(content.as_str(), payload.as_str()) {
                let n = payload.as_str().len();
                proof {
                    crate::wrap::lemma_byte_len_is_utf8_len(payload@);
                }
                let mut details = if is_fr {
                    owned("Écriture, Path::exists et lecture validés (")
                } else {
                    owned("Write, Path::exists, and read verified (")
                };
                push_decimal(&mut details, n as u128);
                push_str(&mut details, if is_fr { " octets)" } else { " bytes)" });
                item(test, true, latency_ms, details, false)
            } else {
                let details = if is_fr {
                    owned("Intégrité compromise : le contenu lu diffère de la charge injectée.")
                } else {
                    owned("Integrity compromised: read content differs from injected payload.")
                };
                item(test, false, latency_ms, details, true)
            }
        },
        IoProbeOutcome::ReadFailed(e) => {
            let details = if is_fr {
                concat2("Permission de lecture refusée / Accès verrouillé : ", e.as_str())
            } else {
                concat2("Read permission denied / Access locked: ", e.as_str())
            };
            item(test, false, latency_ms, details, true)
        },
    }
}

// ---------------------------------------------------------------------------
// HTTP tests
// ---------------------------------------------------------------------------

/// The status code that an HTTP test expects (200 when it names none).
pub open spec fn expected_status_of(test: PluginTestDefinition) -> u16 {
    match test.expected_status_code {
        Some(c) => c,
        None => 200,
    }
}

/// The report of an HTTP test. Without a target URL nothing was sent: the test
/// fails with latency 0 and no remediation. Otherwise `answer` is the status
/// code received, or the transport error text; the test passes when the
/// status is the expected one.
pub open spec fn http_report_is(
    r: TestReportItem,
    test: PluginTestDefinition,
    is_fr: bool,
    answer: Option<Result<u16, String>>,
    latency_ms: u128,
) -> bool {
    let expected = expected_status_of(test);
    let fix = opt_view(test.remediation_command);
    match test.target_url {
        None => item_is(
            r,
            test,
            false,
            0,
            if is_fr {
                "Aucune URL cible définie dans le plugin."@
            } else {
                "No target URL defined in plugin."@
            },
            None,
        ),
        Some(_) => match answer {
            Some(Ok(status)) => item_is(
                r,
                test,
                status == expected,
                latency_ms,
                if is_fr {
                    "Code HTTP reçu : "@ + decimal(status as nat) + " (Attendu : "@ + decimal(
                        expected as nat,
                    ) + ")"@
                } else {
                    "HTTP status received: "@ + decimal(status as nat) + " (Expected: "@ + decimal(
                        expected as nat,
                    ) + ")"@
                },
                if status == expected {
                    None
                } else {
                    fix
                },
            ),
            Some(Err(e)) => item_is(
                r,
                test,
                false,
                latency_ms,
                if is_fr {
                    "Échec de requête HTTP : "@ + e@
                } else {
                    "HTTP request failed: "@ + e@
                },
                fix,
            ),
            None => false,
        },
    }
}

/// Judges and reports an HTTP test once its request has been answered.
pub fn http_test_report(
    test: &PluginTestDefinition,
    is_fr: bool,
    answer: &Option<Result<u16, String>>,
    latency_ms: u128,
) -> (r: TestReportItem)
    requires
        test.target_url is Some <==> answer is Some,
    ensures
        http_report_is(r, *test, is_fr, *answer, latency_ms),
{
    if test.target_url.is_none() {
        let details = if is_fr {
            owned("Aucune URL cible définie dans le plugin.")
        } else {
            owned("No target URL defined in plugin.")
        };
        return item(test, false, 0, details, false);
    }
    let expected: u16 = match test.expected_status_code {
        Some(c) => c,
        None => 200,
    };
    match answer {
        Some(Ok(status)) => {
            let status = *status;
            let passed = status == expected;
            let mut details = owned(if is_fr { "Code HTTP reçu : " } else { "HTTP status received: " });
            push_decimal(&mut details, status as u128);
            push_str(&mut details, if is_fr { " (Attendu : " } else { " (Expected: " });
            push_decimal(&mut details, expected as u128);
            push_str(&mut details, ")");
            item(test, passed, latency_ms, details, !passed)
        },
        Some(Err(e)) => {
            let details = if is_fr {
                concat2("Échec de requête HTTP : ", e.as_str())
            } else {
                concat2("HTTP request failed: ", e.as_str())
            };
            item(test, false, latency_ms, details, true)
        },
        None => {
            // Excluded by the precondition: a test with a URL was sent.
            item(test, false, latency_ms, String::new(), false)
        },
    }
}

// ---------------------------------------------------------------------------
// Summary
// ---------------------------------------------------------------------------

pub open spec fn passed_count(results: Seq<TestReportItem>) -> nat {
    results.filter(|r: TestReportItem| r.passed).len()
}

/// The totals of a run: tests, passed, failed.
pub fn plugin_summary(results: &Vec<TestReportItem>) -> (r: (usize, usize, usize))
    ensures
        r.0 == results@.len(),
        r.1 == passed_count(results@),
        r.2 == results@.len() - passed_count(results@),
{
    let mut passed: usize = 0;
    let mut i: usize = 0;
    while i < results.len()
        invariant
            i <= results.len(),
            passed == passed_count(results@.take(i as int)),
            passed <= i,
        decreases results.len() - i,
    {
        proof {
            reveal_with_fuel(Seq::filter, 1);
            assert(results@.take(i + 1).drop_last() =~= results@.take(i as int));
        }
        if results[i].passed {
            passed = passed + 1;
        }
        i = i + 1;
    }
    proof {
        assert(results@.take(results.len() as int) =~= results@);
    }
    (results.len(), passed, results.len() - passed)
}

} // verus!

verus! {

// ---------------------------------------------------------------------------
// Ordering by id
// ---------------------------------------------------------------------------

/// Strict lexicographic order of texts by code point. `String`'s ordering
/// compares UTF-8 bytes, and UTF-8 preserves the order of code points, so
/// this is the order that `a.id.cmp(&b.id)` decides.
pub open spec fn text_lt(a: Seq<char>, b: Seq<char>) -> bool
    decreases a.len(),
{
    if a.len() == 0 {
        b.len() > 0
    } else if b.len() == 0 {
        false
    } else if a[0] != b[0] {
        a[0] < b[0]
    } else {
        text_lt(a.drop_first(), b.drop_first())
    }
}

/// Whether text `a` sorts strictly before text `b`.
pub fn text_less(a: &str, b: &str) -> (r: bool)
    ensures
        r == text_lt(a@, b@),
{
    let va = chars_of(a);
    let vb = chars_of(b);
    let mut k: usize = 0;
    assert(a@.skip(0) =~= a@);
    assert(b@.skip(0) =~= b@);
    while k < va.len() && k < vb.len() && va[k] == vb[k]
        invariant
            k <= va.len(),
            k <= vb.len(),
            va@ == a@,
            vb@ == b@,
            text_lt(a@, b@) == text_lt(a@.skip(k as int), b@.skip(k as int)),
        decreases va.len() - k,
    {
        proof {
            let sa = a@.skip(k as int);
            let sb = b@.skip(k as int);
            assert(sa[0] == sb[0]);
            assert(sa.drop_first() =~= a@.skip(k + 1));
            assert(sb.drop_first() =~= b@.skip(k + 1));
        }
        k = k + 1;
    }
    proof {
        let sa = a@.skip(k as int);
        let sb = b@.skip(k as int);
        if k < va.len() && k < vb.len() {
            assert(sa[0] == va@[k as int]);
            assert(sb[0] == vb@[k as int]);
        }
    }
    if k == va.len() {
        k < vb.len()
    } else if k == vb.len() {
        false
    } else {
        va[k] < vb[k]
    }
}

/// `x` inserted into `s` after every element whose id does not sort after
/// `x`'s.
pub open spec fn insert_by_id(s: Seq<PluginTestDefinition>, x: PluginTestDefinition) -> Seq<
    PluginTestDefinition,
>
    decreases s.len(),
{
    if s.len() == 0 {
        seq![x]
    } else if text_lt(x.id@, s[0].id@) {
        seq![x] + s
    } else {
        seq![s[0]] + insert_by_id(s.drop_first(), x)
    }
}

/// The tests ordered by id, tests with equal ids keeping their order
/// (`sort_by` on `id`, which is stable).
pub open spec fn sorted_by_id(s: Seq<PluginTestDefinition>) -> Seq<PluginTestDefinition>
    decreases s.len(),
{
    if s.len() == 0 {
        Seq::empty()
    } else {
        insert_by_id(sorted_by_id(s.drop_last()), s.last())
    }
}

proof fn lemma_insert_at(s: Seq<PluginTestDefinition>, x: PluginTestDefinition, p: int)
    requires
        0 <= p <= s.len(),
        forall|k: int| 0 <= k < p ==> !text_lt(x.id@, #[trigger] s[k].id@),
        p < s.len() ==> text_lt(x.id@, s[p].id@),
    ensures
        insert_by_id(s, x) == s.insert(p, x),
    decreases s.len(),
{
    if s.len() == 0 {
        assert(s.insert(p, x) =~= seq![x]);
    } else if p == 0 {
        assert(s.insert(0, x) =~= seq![x] + s);
    } else {
        let t = s.drop_first();
        assert forall|k: int| 0 <= k < p - 1 implies !text_lt(x.id@, #[trigger] t[k].id@) by {
            assert(t[k] == s[k + 1]);
        }
        if p < s.len() {
            assert(t[p - 1] == s[p]);
        }
        assert(!text_lt(x.id@, s[0].id@));
        lemma_insert_at(t, x, p - 1);
        assert(seq![s[0]] + t.insert(p - 1, x) =~= s.insert(p, x));
    }
}

proof fn lemma_text_lt_irreflexive(a: Seq<char>)
    ensures
        !text_lt(a, a),
    decreases a.len(),
{
    if a.len() > 0 {
        lemma_text_lt_irreflexive(a.drop_first());
    }
}

proof fn lemma_text_lt_transitive(a: Seq<char>, b: Seq<char>, c: Seq<char>)
    requires
        text_lt(a, b),
        text_lt(b, c),
    ensures
        text_lt(a, c),
    decreases a.len(),
{
    if a.len() > 0 && b.len() > 0 && c.len() > 0 && a[0] == b[0] && b[0] == c[0] {
        lemma_text_lt_transitive(a.drop_first(), b.drop_first(), c.drop_first());
    }
}

proof fn lemma_text_lt_total(a: Seq<char>, b: Seq<char>)
    ensures
        text_lt(a, b) || text_lt(b, a) || a == b,
    decreases a.len(),
{
    if a.len() > 0 && b.len() > 0 {
        if a[0] == b[0] {
            lemma_text_lt_total(a.drop_first(), b.drop_first());
            if a.drop_first() == b.drop_first() {
                assert(a =~= seq![a[0]] + a.drop_first());
                assert(b =~= seq![b[0]] + b.drop_first());
            }
        } else {
        }
    } else if a.len() == 0 && b.len() == 0 {
        assert(a =~= b);
    }
}

/// Whether no test's id sorts before the id of a test ahead of it.
pub open spec fn ordered_by_id(s: Seq<PluginTestDefinition>) -> bool {
    forall|i: int, j: int| 0 <= i < j < s.len() ==> !text_lt(#[trigger] s[j].id@, #[trigger] s[i].id@)
}

proof fn lemma_insert_by_id(s: Seq<PluginTestDefinition>, x: PluginTestDefinition)
    requires
        ordered_by_id(s),
    ensures
        ordered_by_id(insert_by_id(s, x)),
        insert_by_id(s, x).to_multiset() =~= s.to_multiset().insert(x),
        insert_by_id(s, x).len() == s.len() + 1,
        forall|k: int| 0 <= k < insert_by_id(s, x).len() ==> (#[trigger] insert_by_id(s, x)[k] == x
            || s.contains(insert_by_id(s, x)[k])),
    decreases s.len(),
{
    broadcast use vstd::seq_lib::lemma_multiset_commutative;
    broadcast use vstd::multiset::group_multiset_axioms;

    let r = insert_by_id(s, x);
    if s.len() == 0 {
        assert(r =~= s.push(x));
        vstd::seq_lib::to_multiset_build(s, x);
    } else if text_lt(x.id@, s[0].id@) {
        assert(r =~= s.insert(0, x));
        vstd::seq_lib::to_multiset_insert(s, 0, x);
        assert(r.to_multiset() =~= s.to_multiset().insert(x));
        assert forall|i: int, j: int| 0 <= i < j < r.len() implies !text_lt(
            #[trigger] r[j].id@,
            #[trigger] r[i].id@,
        ) by {
            if i == 0 {
                assert(r[j] == s[j - 1]);
                if j - 1 > 0 {
                    assert(!text_lt(s[j - 1].id@, s[0].id@));
                    lemma_text_lt_total(s[j - 1].id@, s[0].id@);
                    if text_lt(s[0].id@, s[j - 1].id@) {
                        lemma_text_lt_transitive(x.id@, s[0].id@, s[j - 1].id@);
                    }
                }
                if text_lt(s[j - 1].id@, x.id@) {
                    lemma_text_lt_transitive(x.id@, s[j - 1].id@, x.id@);
                    lemma_text_lt_irreflexive(x.id@);
                }
            } else {
                assert(r[i] == s[i - 1]);
                assert(r[j] == s[j - 1]);
            }
        }
        assert forall|k: int| 0 <= k < r.len() implies (#[trigger] r[k] == x || s.contains(r[k])) by {
            if k > 0 {
                assert(r[k] == s[k - 1]);
            }
        }
    } else {
        let t = s.drop_first();
        assert(ordered_by_id(t)) by {
            assert forall|i: int, j: int| 0 <= i < j < t.len() implies !text_lt(
                #[trigger] t[j].id@,
                #[trigger] t[i].id@,
            ) by {
                assert(t[i] == s[i + 1]);
                assert(t[j] == s[j + 1]);
            }
        }
        lemma_insert_by_id(t, x);
        let rt = insert_by_id(t, x);
        assert(r == seq![s[0]] + rt);
        assert(s =~= seq![s[0]] + t);
        assert(r.to_multiset() =~= s.to_multiset().insert(x));
        assert forall|k: int| 0 <= k < r.len() implies (#[trigger] r[k] == x || s.contains(r[k])) by {
            if k > 0 {
                assert(r[k] == rt[k - 1]);
                if rt[k - 1] != x {
                    let m = choose|m: int| 0 <= m < t.len() && t[m] == rt[k - 1];
                    assert(s[m + 1] == r[k]);
                }
            } else {
                assert(s[0] == r[0]);
            }
        }
        assert forall|i: int, j: int| 0 <= i < j < r.len() implies !text_lt(
            #[trigger] r[j].id@,
            #[trigger] r[i].id@,
        ) by {
            if i == 0 {
                assert(r[0] == s[0]);
                assert(r[j] == rt[j - 1]);
                if rt[j - 1] == x {
                    lemma_text_lt_total(x.id@, s[0].id@);
                } else {
                    let m = choose|m: int| 0 <= m < t.len() && t[m] == rt[j - 1];
                    assert(s[m + 1] == rt[j - 1]);
                }
            } else {
                assert(r[i] == rt[i - 1]);
                assert(r[j] == rt[j - 1]);
            }
        }
    }
}

/// Loading orders the tests by id: the result holds the same tests, each as
/// many times, and no test's id sorts before the id of a test ahead of it.
pub proof fn lemma_sorted_by_id(s: Seq<PluginTestDefinition>)
    ensures
        ordered_by_id(sorted_by_id(s)),
        sorted_by_id(s).to_multiset() =~= s.to_multiset(),
    decreases s.len(),
{
    broadcast use vstd::seq_lib::to_multiset_build;

    if s.len() == 0 {
        assert(sorted_by_id(s) =~= s);
    } else {
        lemma_sorted_by_id(s.drop_last());
        lemma_insert_by_id(sorted_by_id(s.drop_last()), s.last());
        assert(s.drop_last().push(s.last()) =~= s);
    }
}

/// Whether a test has the given id.
pub open spec fn has_id(t: PluginTestDefinition, key: Seq<char>) -> bool {
    t.id@ == key
}

proof fn lemma_insert_by_id_same_key(r: Seq<PluginTestDefinition>, x: PluginTestDefinition, key: Seq<char>)
    requires
        ordered_by_id(r),
    ensures
        insert_by_id(r, x).filter(|t: PluginTestDefinition| has_id(t, key)) == if has_id(x, key) {
            r.filter(|t: PluginTestDefinition| has_id(t, key)).push(x)
        } else {
            r.filter(|t: PluginTestDefinition| has_id(t, key))
        },
    decreases r.len(),
{
    let pk = |t: PluginTestDefinition| has_id(t, key);
    reveal_with_fuel(Seq::filter, 2);
    if r.len() == 0 {
        assert(insert_by_id(r, x) =~= r.push(x));
        assert(r.filter(pk) =~= Seq::<PluginTestDefinition>::empty());
    } else if text_lt(x.id@, r[0].id@) {
        Seq::filter_distributes_over_add(seq![x], r, pk);
        assert(seq![x].drop_last() =~= Seq::<PluginTestDefinition>::empty());
        if has_id(x, key) {
            assert forall|k: int| 0 <= k < r.len() implies !pk(#[trigger] r[k]) by {
                if k > 0 {
                    assert(!text_lt(r[k].id@, r[0].id@));
                }
                if r[k].id@ == x.id@ {
                    if k == 0 {
                        lemma_text_lt_irreflexive(x.id@);
                    }
                }
            }
            lemma_filter_none_ids(r, key);
            assert(seq![x].filter(pk) =~= seq![x]);
            assert(seq![x] + Seq::<PluginTestDefinition>::empty() =~= Seq::<PluginTestDefinition>::empty().push(x));
        } else {
            assert(seq![x].filter(pk) =~= Seq::<PluginTestDefinition>::empty());
            assert(Seq::<PluginTestDefinition>::empty() + r.filter(pk) =~= r.filter(pk));
        }
    } else {
        let t = r.drop_first();
        assert(ordered_by_id(t)) by {
            assert forall|i: int, j: int| 0 <= i < j < t.len() implies !text_lt(
                #[trigger] t[j].id@,
                #[trigger] t[i].id@,
            ) by {
                assert(t[i] == r[i + 1]);
                assert(t[j] == r[j + 1]);
            }
        }
        lemma_insert_by_id_same_key(t, x, key);
        assert(r =~= seq![r[0]] + t);
        Seq::filter_distributes_over_add(seq![r[0]], t, pk);
        Seq::filter_distributes_over_add(seq![r[0]], insert_by_id(t, x), pk);
        assert(seq![r[0]].drop_last() =~= Seq::<PluginTestDefinition>::empty());
        if has_id(x, key) {
            assert(seq![r[0]].filter(pk) + t.filter(pk).push(x) =~= (seq![r[0]].filter(pk)
                + t.filter(pk)).push(x));
        }
    }
}

proof fn lemma_filter_none_ids(r: Seq<PluginTestDefinition>, key: Seq<char>)
    requires
        forall|k: int| 0 <= k < r.len() ==> !has_id(#[trigger] r[k], key),
    ensures
        r.filter(|t: PluginTestDefinition| has_id(t, key)) == Seq::<PluginTestDefinition>::empty(),
    decreases r.len(),
{
    reveal_with_fuel(Seq::filter, 1);
    if r.len() > 0 {
        let d = r.drop_last();
        assert forall|k: int| 0 <= k < d.len() implies !has_id(#[trigger] d[k], key) by {
            assert(d[k] == r[k]);
        }
        lemma_filter_none_ids(d, key);
        assert(!has_id(r[r.len() - 1], key));
    }
}

/// Ordering by id is stable: the tests that share an id come out in the
/// order in which they were loaded.
pub proof fn lemma_sorted_by_id_stable(s: Seq<PluginTestDefinition>, key: Seq<char>)
    ensures
        sorted_by_id(s).filter(|t: PluginTestDefinition| has_id(t, key)) == s.filter(
            |t: PluginTestDefinition| has_id(t, key),
        ),
    decreases s.len(),
{
    reveal_with_fuel(Seq::filter, 1);
    if s.len() == 0 {
        assert(sorted_by_id(s) =~= s);
    } else {
        lemma_sorted_by_id_stable(s.drop_last(), key);
        lemma_sorted_by_id(s.drop_last());
        lemma_insert_by_id_same_key(sorted_by_id(s.drop_last()), s.last(), key);
    }
}

/// Orders loaded plugin tests by id, keeping the order of equal ids.
pub fn sort_by_id(tests: Vec<PluginTestDefinition>) -> (out: Vec<PluginTestDefinition>)
    ensures
        out@ == sorted_by_id(tests@),
{
    let ghost orig = tests@;
    let mut rest = tests;
    let mut out: Vec<PluginTestDefinition> = Vec::new();
    let n = rest.len();
    let mut i: usize = 0;
    while i < n
        invariant
            i <= n == orig.len(),
            rest@ == orig.skip(i as int),
            out@ == sorted_by_id(orig.take(i as int)),
        decreases n - i,
    {
        let x = rest.remove(0);
        proof {
            assert(x == orig[i as int]);
            assert(rest@ =~= orig.skip(i + 1));
            assert(orig.take(i + 1).drop_last() =~= orig.take(i as int));
            assert(orig.take(i + 1).last() == x);
        }
        let mut p: usize = 0;
        while p < out.len() && !text_less(x.id.as_str(), out[p].id.as_str())
            invariant
                p <= out.len(),
                forall|k: int| 0 <= k < p ==> !text_lt(x.id@, #[trigger] out@[k].id@),
            decreases out.len() - p,
        {
            p = p + 1;
        }
        proof {
            lemma_insert_at(out@, x, p as int);
        }
        out.insert(p, x);
        i = i + 1;
    }
    proof {
        assert(orig.take(n as int) =~= orig);
    }
    out
}

} // verus!

verus! {

// ---------------------------------------------------------------------------
// What a plugin test concludes
// ---------------------------------------------------------------------------

/// A file-system test passes exactly when the content read back is the
/// payload it wrote; then no remediation is attached. A write failure, a file
/// gone after the write, a read failure or different content fail it, and the
/// test's remediation command is attached. The report always names the test.
pub proof fn lemma_io_test_outcome(
    r: TestReportItem,
    test: PluginTestDefinition,
    is_fr: bool,
    outcome: IoProbeOutcome,
    latency_ms: u128,
)
    requires
        io_report_is(r, test, is_fr, outcome, latency_ms),
    ensures
        r.passed <==> (outcome matches IoProbeOutcome::Read(c) && c@ == io_payload_of(test)),
        r.passed ==> r.remediation is None,
        !r.passed ==> opt_view(r.remediation) == opt_view(test.remediation_command),
        r.id@ == test.id@,
        r.name@ == test.test_name@,
        r.latency_ms == latency_ms,
        io_payload_of(test) == match test.test_payload {
            Some(p) => p@,
            None => "HUNTER_DIAGNOSTIC_PAYLOAD_TEST_OK"@,
        },
{
}

/// An HTTP test passes exactly when it names a URL and the response's status
/// is the expected one (200 unless the test names another); then no
/// remediation is attached. A transport error or another status fails it with
/// the test's remediation command. A test without a URL fails at once, with
/// no latency and no remediation.
pub proof fn lemma_http_test_outcome(
    r: TestReportItem,
    test: PluginTestDefinition,
    is_fr: bool,
    answer: Option<Result<u16, String>>,
    latency_ms: u128,
)
    requires
        http_report_is(r, test, is_fr, answer, latency_ms),
    ensures
        r.passed <==> (answer matches Some(Ok(st)) && test.target_url is Some && st == (
        match test.expected_status_code {
            Some(c) => c,
            None => 200u16,
        })),
        r.passed ==> r.remediation is None,
        test.target_url is None ==> r.remediation is None && r.latency_ms == 0,
        test.target_url is Some && !r.passed ==> opt_view(r.remediation) == opt_view(
            test.remediation_command,
        ),
        r.id@ == test.id@,
{
}

} // verus!

verus! {

/// The summary counts one pass per passing report: none for no reports, and
/// one more exactly when an added report passed; the failures are the rest.
pub proof fn lemma_passed_count(results: Seq<TestReportItem>, x: TestReportItem)
    ensures
        passed_count(Seq::empty()) == 0,
        passed_count(results.push(x)) == passed_count(results) + if x.passed {
            1int
        } else {
            0int
        },
        passed_count(results) <= results.len(),
{
    reveal_with_fuel(Seq::filter, 1);
    assert(results.push(x).drop_last() =~= results);
    assert(Seq::<TestReportItem>::empty().filter(|r: TestReportItem| r.passed) =~= Seq::<
        TestReportItem,
    >::empty());
    results.lemma_filter_len(|r: TestReportItem| r.passed);
}

} // verus!

verus! {

/// Ids are ordered as strings compare: a text sorts before every longer text
/// that it begins, and before a text from which it first differs by a smaller
/// character.
pub proof fn lemma_text_order(a: Seq<char>, b: Seq<char>, i: int)
    ensures
        a.len() < b.len() && b.take(a.len() as int) == a ==> text_lt(a, b),
        (0 <= i < a.len() && i < b.len() && a.take(i) == b.take(i) && a[i] < b[i]) ==> text_lt(a, b),
    decreases a.len(),
{
    if a.len() > 0 && b.len() > 0 {
        if a.len() < b.len() && b.take(a.len() as int) == a {
            assert(a[0] == b.take(a.len() as int)[0]);
            assert(b.drop_first().take(a.drop_first().len() as int) =~= a.drop_first()) by {
                assert forall|k: int| 0 <= k < a.drop_first().len() implies #[trigger] b.drop_first().take(
                    a.drop_first().len() as int,
                )[k] == a.drop_first()[k] by {
                    assert(b.take(a.len() as int)[k + 1] == a[k + 1]);
                }
            }
        }
        if 0 <= i < a.len() && i < b.len() && a.take(i) == b.take(i) && a[i] < b[i] {
            if i > 0 {
                assert(a[0] == a.take(i)[0]);
                assert(b[0] == b.take(i)[0]);
                assert(a.drop_first().take(i - 1) =~= b.drop_first().take(i - 1)) by {
                    assert forall|k: int| 0 <= k < i - 1 implies #[trigger] a.drop_first().take(
                        i - 1,
                    )[k] == b.drop_first().take(i - 1)[k] by {
                        assert(a.take(i)[k + 1] == b.take(i)[k + 1]);
                    }
                }
            }
        }
        lemma_text_order(a.drop_first(), b.drop_first(), i - 1);
    }
}

} // verus!
