//! The boxed report cards: which rows a card holds, with which labels, values
//! and colours. Drawing them on the terminal is left to the program.
use vstd::prelude::*;
use crate::owasp::OwaspCheckResult;
use crate::scenarios::{AutoDefendScenario, DefendCheckResult, DefendScenario};
use crate::text::{decimal, lemma_decimal_len_bounds, owned, push_decimal, push_str};
use crate::verdict::Verdict;
use crate::wrap::{
    lemma_len_le_byte_len, lemma_wrap_text_laws, no_white_space, string_views, wrap_lines, wrap_text,
};

verus! {

/// Width of every card, borders included.
pub const CARD_WIDTH: usize = 92;

/// Terminal colours of the cards.
#[derive(Debug, Clone, Copy, PartialEq, Eq, Structural)]
pub enum Tone {
    Green,
    Yellow,
    Red,
    Magenta,
    Cyan,
}

/// How a row's value is drawn.
#[derive(Debug, Clone, Copy, PartialEq, Eq, Structural)]
pub enum ValueStyle {
    Plain,
    /// Bold, in the given colour.
    Bold(Tone),
}

/// One row of a card: `label : value`.
#[derive(Debug, Clone)]
pub struct CardRow {
    pub label: &'static str,
    pub value: String,
    pub style: ValueStyle,
}

/// A boxed card: a coloured border, a bold title line, then rows whose label
/// and value columns are padded to the given widths.
#[derive(Debug, Clone)]
pub struct Card {
    pub border: Tone,
    pub title: String,
    /// Whether the title is framed by a space inside each border (catalog
    /// cards) rather than indented by two spaces (report cards).
    pub spaced_title: bool,
    pub label_width: usize,
    pub value_width: usize,
    pub rows: Vec<CardRow>,
}

/// Columns that a row takes when drawn: the border and two spaces, the label
/// padded to its column, " : ", the value padded to its column, a space and
/// the closing border.
pub open spec fn row_columns(card: Card, row: CardRow) -> int {
    let l = row.label@.len() as int;
    let v = row.value@.len() as int;
    8 + (if l > card.label_width {
        l
    } else {
        card.label_width as int
    }) + (if v > card.value_width {
        v
    } else {
        card.value_width as int
    })
}

/// Whether a row whose label and value fit their columns is exactly as wide as
/// the card's bars.
pub open spec fn frame_fits(card: Card) -> bool {
    card.label_width + card.value_width + 8 == CARD_WIDTH
}

pub open spec fn row_view(r: CardRow) -> (Seq<char>, Seq<char>, ValueStyle) {
    (r.label@, r.value@, r.style)
}

pub open spec fn rows_view(rows: Seq<CardRow>) -> Seq<(Seq<char>, Seq<char>, ValueStyle)> {
    rows.map_values(|r: CardRow| row_view(r))
}

/// Rows for wrapped lines: the label stands on the first line only.
pub open spec fn labeled_rows(lines: Seq<Seq<char>>, label: Seq<char>, style: ValueStyle) -> Seq<
    (Seq<char>, Seq<char>, ValueStyle),
> {
    Seq::new(
        lines.len(),
        |i: int|
            (
                if i == 0 {
                    label
                } else {
                    Seq::<char>::empty()
                },
                lines[i],
                style,
            ),
    )
}

fn push_row(rows: &mut Vec<CardRow>, label: &'static str, value: String, style: ValueStyle)
    ensures
        rows_view(final(rows)@) == rows_view(old(rows)@).push((label@, value@, style)),
{
    let ghost before = rows@;
    rows.push(CardRow { label, value, style });
    assert(rows_view(rows@) =~= rows_view(before).push((label@, value@, style)));
}

/// Appends the rows of `text` wrapped at `width` bytes.
fn push_wrapped_rows(
    rows: &mut Vec<CardRow>,
    text: &str,
    width: usize,
    label: &'static str,
    style: ValueStyle,
)
    ensures
        rows_view(final(rows)@) == rows_view(old(rows)@) + labeled_rows(
            wrap_lines(text@, width as nat),
            label@,
            style,
        ),
{
    let lines = wrap_text(text, width);
    let ghost base = rows_view(rows@);
    let ghost target = labeled_rows(wrap_lines(text@, width as nat), label@, style);
    let mut i: usize = 0;
    while i < lines.len()
        invariant
            i <= lines.len(),
            string_views(lines@) == wrap_lines(text@, width as nat),
            target == labeled_rows(wrap_lines(text@, width as nat), label@, style),
            rows_view(rows@) == base + target.take(i as int),
        decreases lines.len() - i,
    {
        let l: &'static str = if i == 0 {
            label
        } else {
            ""
        };
        let value = owned(lines[i].as_str());
        proof {
            reveal_strlit("");
            assert(string_views(lines@)[i as int] == lines@[i as int]@);
            assert(target[i as int] == (l@, value@, style));
            assert(target.take(i + 1) =~= target.take(i as int).push((l@, value@, style)));
        }
        push_row(rows, l, value, style);
        i = i + 1;
    }
    assert(target.take(lines.len() as int) =~= target);
}

/// The colour of a verdict.
pub open spec fn verdict_tone(v: Verdict) -> Tone {
    match v {
        Verdict::Secure => Tone::Green,
        Verdict::Warning => Tone::Yellow,
        Verdict::Vulnerable => Tone::Red,
        Verdict::Error => Tone::Magenta,
    }
}

pub fn tone_of(v: Verdict) -> (t: Tone)
    ensures
        t == verdict_tone(v),
{
    match v {
        Verdict::Secure => Tone::Green,
        Verdict::Warning => Tone::Yellow,
        Verdict::Vulnerable => Tone::Red,
        Verdict::Error => Tone::Magenta,
    }
}

// ---------------------------------------------------------------------------
// OWASP result cards
// ---------------------------------------------------------------------------

pub open spec fn owasp_badge(v: Verdict, fr: bool) -> Seq<char> {
    match v {
        Verdict::Secure => if fr {
            "[SÉCURISÉ]"@
        } else {
            "[SECURE]"@
        },
        Verdict::Warning => if fr {
            "[ATTENTION]"@
        } else {
            "[WARNING]"@
        },
        Verdict::Vulnerable => if fr {
            "[VULNÉRABLE]"@
        } else {
            "[VULNERABLE]"@
        },
        Verdict::Error => if fr {
            "[ERREUR]"@
        } else {
            "[ERROR]"@
        },
    }
}

fn owasp_badge_text(v: Verdict, fr: bool) -> (r: &'static str)
    ensures
        r@ == owasp_badge(v, fr),
{
    match v {
        Verdict::Secure => if fr {
            "[SÉCURISÉ]"
        } else {
            "[SECURE]"
        },
        Verdict::Warning => if fr {
            "[ATTENTION]"
        } else {
            "[WARNING]"
        },
        Verdict::Vulnerable => if fr {
            "[VULNÉRABLE]"
        } else {
            "[VULNERABLE]"
        },
        Verdict::Error => if fr {
            "[ERREUR]"
        } else {
            "[ERROR]"
        },
    }
}

pub open spec fn pick(fr: bool, fr_text: Seq<char>, en_text: Seq<char>) -> Seq<char> {
    if fr {
        fr_text
    } else {
        en_text
    }
}

/// The status code as a card shows it.
pub open spec fn code_label(code: Option<u16>) -> Seq<char> {
    match code {
        Some(c) => "HTTP "@ + decimal(c as nat),
        None => "N/A"@,
    }
}

/// The card of an OWASP control's result, in French when `fr`.
pub open spec fn owasp_card_is(card: Card, result: OwaspCheckResult, fr: bool) -> bool {
    let name = pick(fr, result.name_fr@, result.name_en@);
    let details = pick(fr, result.details_fr@, result.details_en@);
    &&& card.border == verdict_tone(result.verdict)
    &&& card.title@ == "["@ + result.id@ + "] "@ + pick(fr, "CONTRÔLE OWASP"@, "OWASP CONTROL"@)
        + " : "@ + name
    &&& !card.spaced_title
    &&& card.label_width == 12
    &&& card.value_width == 72
    &&& frame_fits(card)
    &&& rows_view(card.rows@) == seq![
        (
            pick(fr, "STATUT"@, "STATUS"@),
            owasp_badge(result.verdict, fr),
            ValueStyle::Bold(verdict_tone(result.verdict)),
        ),
        (pick(fr, "CODE HTTP"@, "HTTP CODE"@), code_label(result.status_code), ValueStyle::Plain),
        (
            pick(fr, "LATENCE"@, "LATENCY"@),
            decimal(result.latency_ms as nat) + " ms"@,
            ValueStyle::Plain,
        ),
    ] + labeled_rows(wrap_lines(details, 72), pick(fr, "DÉTAILS"@, "DETAILS"@), ValueStyle::Plain)
}

/// The card of an OWASP control's result.
pub fn owasp_card(result: &OwaspCheckResult, fr: bool) -> (card: Card)
    ensures
        owasp_card_is(card, *result, fr),
{
    let tone = tone_of(result.verdict);
    let mut title = owned("[");
    push_str(&mut title, result.id);
    push_str(&mut title, "] ");
    push_str(&mut title, if fr { "CONTRÔLE OWASP" } else { "OWASP CONTROL" });
    push_str(&mut title, " : ");
    push_str(&mut title, if fr { result.name_fr } else { result.name_en });
    let mut rows: Vec<CardRow> = Vec::new();
    push_row(
        &mut rows,
        if fr { "STATUT" } else { "STATUS" },
        owned(owasp_badge_text(result.verdict, fr)),
        ValueStyle::Bold(tone),
    );
    let code = match result.status_code {
        Some(c) => {
            let mut s = owned("HTTP ");
            push_decimal(&mut s, c as u128);
            s
        },
        None => owned("N/A"),
    };
    push_row(&mut rows, if fr { "CODE HTTP" } else { "HTTP CODE" }, code, ValueStyle::Plain);
    let mut latency = String::new();
    push_decimal(&mut latency, result.latency_ms);
    push_str(&mut latency, " ms");
    proof {
        assert(Seq::<char>::empty() + decimal(result.latency_ms as nat) =~= decimal(
            result.latency_ms as nat,
        ));
    }
    push_row(&mut rows, if fr { "LATENCE" } else { "LATENCY" }, latency, ValueStyle::Plain);
    let ghost head = rows_view(rows@);
    push_wrapped_rows(
        &mut rows,
        if fr { result.details_fr.as_str() } else { result.details_en.as_str() },
        CARD_WIDTH - 20,
        if fr { "DÉTAILS" } else { "DETAILS" },
        ValueStyle::Plain,
    );
    proof {
        assert(rows_view(rows@) =~= seq![
            (
                pick(fr, "STATUT"@, "STATUS"@),
                owasp_badge(result.verdict, fr),
                ValueStyle::Bold(verdict_tone(result.verdict)),
            ),
            (pick(fr, "CODE HTTP"@, "HTTP CODE"@), code_label(result.status_code), ValueStyle::Plain),
            (
                pick(fr, "LATENCE"@, "LATENCY"@),
                decimal(result.latency_ms as nat) + " ms"@,
                ValueStyle::Plain,
            ),
        ] + labeled_rows(
            wrap_lines(pick(fr, result.details_fr@, result.details_en@), 72),
            pick(fr, "DÉTAILS"@, "DETAILS"@),
            ValueStyle::Plain,
        ));
        let name = pick(fr, result.name_fr@, result.name_en@);
        assert(title@ =~= "["@ + result.id@ + "] "@ + pick(fr, "CONTRÔLE OWASP"@, "OWASP CONTROL"@)
            + " : "@ + name);
    }
    Card {
        border: tone,
        title,
        spaced_title: false,
        label_width: CARD_WIDTH - 80,
        value_width: CARD_WIDTH - 20,
        rows,
    }
}

} // verus!

verus! {

// ---------------------------------------------------------------------------
// Host scenario result cards
// ---------------------------------------------------------------------------

pub open spec fn defend_badge(v: Verdict, fr: bool) -> Seq<char> {
    match v {
        Verdict::Secure => if fr {
            "[+] STATUT : CONTRÔLE RÉUSSI (SYSTÈME SÉCURISÉ)"@
        } else {
            "[+] STATUS: Security control PASSED. System is SECURE."@
        },
        Verdict::Warning => if fr {
            "[!] STATUT : AVERTISSEMENT (PROTECTION PARTIELLE)"@
        } else {
            "[!] STATUS: Security control WARNING (Partial shield)."@
        },
        Verdict::Vulnerable => if fr {
            "[!] STATUT : ÉCHEC DU CONTRÔLE (SYSTÈME NON CONFORME)"@
        } else {
            "[!] STATUS: Security control FAILED. System is NON-COMPLIANT."@
        },
        Verdict::Error => if fr {
            "[-] STATUT : ERREUR D'ÉVALUATION SYSTÈME"@
        } else {
            "[-] STATUS: SYSTEM EVALUATION ERROR"@
        },
    }
}

fn defend_badge_text(v: Verdict, fr: bool) -> (r: &'static str)
    ensures
        r@ == defend_badge(v, fr),
{
    match v {
        Verdict::Secure => if fr {
            "[+] STATUT : CONTRÔLE RÉUSSI (SYSTÈME SÉCURISÉ)"
        } else {
            "[+] STATUS: Security control PASSED. System is SECURE."
        },
        Verdict::Warning => if fr {
            "[!] STATUT : AVERTISSEMENT (PROTECTION PARTIELLE)"
        } else {
            "[!] STATUS: Security control WARNING (Partial shield)."
        },
        Verdict::Vulnerable => if fr {
            "[!] STATUT : ÉCHEC DU CONTRÔLE (SYSTÈME NON CONFORME)"
        } else {
            "[!] STATUS: Security control FAILED. System is NON-COMPLIANT."
        },
        Verdict::Error => if fr {
            "[-] STATUT : ERREUR D'ÉVALUATION SYSTÈME"
        } else {
            "[-] STATUS: SYSTEM EVALUATION ERROR"
        },
    }
}

/// The card of a host scenario's result, in French when `fr`.
pub open spec fn defend_card_is(card: Card, result: DefendCheckResult, fr: bool) -> bool {
    let title = pick(fr, result.title_fr@, result.title_en@);
    let findings = pick(fr, result.findings_fr@, result.findings_en@);
    &&& card.border == verdict_tone(result.verdict)
    &&& card.title@ == "["@ + result.scenario_id@ + "] "@ + pick(
        fr,
        "SCÉNARIO DE SÉCURITÉ"@,
        "SECURITY SCENARIO"@,
    ) + " : "@ + title
    &&& !card.spaced_title
    &&& card.label_width == 17
    &&& card.value_width == 67
    &&& frame_fits(card)
    &&& rows_view(card.rows@) == seq![
        (
            pick(fr, "POSTURE DÉFENSIVE"@, "DEFENSE STATUS"@),
            defend_badge(result.verdict, fr),
            ValueStyle::Bold(verdict_tone(result.verdict)),
        ),
    ] + labeled_rows(
        wrap_lines(findings, 67),
        pick(fr, "CONSTAT FACTUEL"@, "FACTUAL FINDINGS"@),
        ValueStyle::Plain,
    )
}

/// The card of a host scenario's result.
pub fn defend_card(result: &DefendCheckResult, fr: bool) -> (card: Card)
    ensures
        defend_card_is(card, *result, fr),
{
    let tone = tone_of(result.verdict);
    let mut title = owned("[");
    push_str(&mut title, result.scenario_id);
    push_str(&mut title, "] ");
    push_str(&mut title, if fr { "SCÉNARIO DE SÉCURITÉ" } else { "SECURITY SCENARIO" });
    push_str(&mut title, " : ");
    push_str(&mut title, if fr { result.title_fr } else { result.title_en });
    let mut rows: Vec<CardRow> = Vec::new();
    push_row(
        &mut rows,
        if fr { "POSTURE DÉFENSIVE" } else { "DEFENSE STATUS" },
        owned(defend_badge_text(result.verdict, fr)),
        ValueStyle::Bold(tone),
    );
    push_wrapped_rows(
        &mut rows,
        if fr { result.findings_fr.as_str() } else { result.findings_en.as_str() },
        CARD_WIDTH - 25,
        if fr { "CONSTAT FACTUEL" } else { "FACTUAL FINDINGS" },
        ValueStyle::Plain,
    );
    proof {
        let title_text = pick(fr, result.title_fr@, result.title_en@);
        assert(title@ =~= "["@ + result.scenario_id@ + "] "@ + pick(
            fr,
            "SCÉNARIO DE SÉCURITÉ"@,
            "SECURITY SCENARIO"@,
        ) + " : "@ + title_text);
        assert(rows_view(rows@) =~= seq![
            (
                pick(fr, "POSTURE DÉFENSIVE"@, "DEFENSE STATUS"@),
                defend_badge(result.verdict, fr),
                ValueStyle::Bold(verdict_tone(result.verdict)),
            ),
        ] + labeled_rows(
            wrap_lines(pick(fr, result.findings_fr@, result.findings_en@), 67),
            pick(fr, "CONSTAT FACTUEL"@, "FACTUAL FINDINGS"@),
            ValueStyle::Plain,
        ));
    }
    Card {
        border: tone,
        title,
        spaced_title: false,
        label_width: CARD_WIDTH - 75,
        value_width: CARD_WIDTH - 25,
        rows,
    }
}

// ---------------------------------------------------------------------------
// Catalog cards
// ---------------------------------------------------------------------------

/// The catalog card of one scenario, in French when `fr`.
pub open spec fn scenario_card_is(card: Card, s: DefendScenario, fr: bool) -> bool {
    &&& card.border == Tone::Cyan
    &&& card.title@ == "  ["@ + s.spec_id() + "] "@ + pick(
        fr,
        "CONTRÔLE DE SÉCURITÉ DÉFENSIF"@,
        "DEFENSIVE SECURITY CONTROL"@,
    )
    &&& card.spaced_title
    &&& card.label_width == 24
    &&& card.value_width == 60
    &&& frame_fits(card)
    &&& rows_view(card.rows@) == seq![
        (
            pick(fr, "NOM DU SCÉNARIO (-check)"@, "SCENARIO NAME (-check)"@),
            s.spec_id(),
            ValueStyle::Bold(Tone::Yellow),
        ),
    ] + labeled_rows(
        wrap_lines(pick(fr, s.spec_description_fr(), s.spec_description_en()), 60),
        pick(fr, "TEST CONCRET RÉALISÉ"@, "CONCRETE TEST PERFORMED"@),
        ValueStyle::Plain,
    ) + labeled_rows(
        wrap_lines(pick(fr, s.spec_remediation_desc_fr(), s.spec_remediation_desc_en()), 60),
        pick(fr, "BOUCLIER DE REMÉDIATION"@, "REMEDIATION SHIELD"@),
        ValueStyle::Bold(Tone::Green),
    )
}

/// The catalog card of one scenario, as the help screen shows it.
pub fn scenario_card(s: DefendScenario, fr: bool) -> (card: Card)
    ensures
        scenario_card_is(card, s, fr),
{
    let mut title = owned("  [");
    push_str(&mut title, s.id());
    push_str(&mut title, "] ");
    push_str(
        &mut title,
        if fr { "CONTRÔLE DE SÉCURITÉ DÉFENSIF" } else { "DEFENSIVE SECURITY CONTROL" },
    );
    let mut rows: Vec<CardRow> = Vec::new();
    push_row(
        &mut rows,
        if fr { "NOM DU SCÉNARIO (-check)" } else { "SCENARIO NAME (-check)" },
        owned(s.id()),
        ValueStyle::Bold(Tone::Yellow),
    );
    push_wrapped_rows(
        &mut rows,
        if fr { s.description_fr() } else { s.description_en() },
        CARD_WIDTH - 32,
        if fr { "TEST CONCRET RÉALISÉ" } else { "CONCRETE TEST PERFORMED" },
        ValueStyle::Plain,
    );
    push_wrapped_rows(
        &mut rows,
        if fr { s.remediation_desc_fr() } else { s.remediation_desc_en() },
        CARD_WIDTH - 32,
        if fr { "BOUCLIER DE REMÉDIATION" } else { "REMEDIATION SHIELD" },
        ValueStyle::Bold(Tone::Green),
    );
    proof {
        assert(title@ =~= "  ["@ + s.spec_id() + "] "@ + pick(
            fr,
            "CONTRÔLE DE SÉCURITÉ DÉFENSIF"@,
            "DEFENSIVE SECURITY CONTROL"@,
        ));
        assert(rows_view(rows@) =~= seq![
            (
                pick(fr, "NOM DU SCÉNARIO (-check)"@, "SCENARIO NAME (-check)"@),
                s.spec_id(),
                ValueStyle::Bold(Tone::Yellow),
            ),
        ] + labeled_rows(
            wrap_lines(pick(fr, s.spec_description_fr(), s.spec_description_en()), 60),
            pick(fr, "TEST CONCRET RÉALISÉ"@, "CONCRETE TEST PERFORMED"@),
            ValueStyle::Plain,
        ) + labeled_rows(
            wrap_lines(pick(fr, s.spec_remediation_desc_fr(), s.spec_remediation_desc_en()), 60),
            pick(fr, "BOUCLIER DE REMÉDIATION"@, "REMEDIATION SHIELD"@),
            ValueStyle::Bold(Tone::Green),
        ));
    }
    Card {
        border: Tone::Cyan,
        title,
        spaced_title: true,
        label_width: CARD_WIDTH - 68,
        value_width: CARD_WIDTH - 32,
        rows,
    }
}

pub open spec fn all_test_text(fr: bool) -> Seq<char> {
    pick(
        fr,
        "Exécute l'intégralité des 14 scénarios séquentiellement pour un audit complet de la machine hôte."@,
        "Executes all 14 scenarios sequentially for a complete posture assessment of the host machine."@,
    )
}

pub open spec fn all_shield_text(fr: bool) -> Seq<char> {
    pick(
        fr,
        "Déploie interactivement les contre-mesures pour chaque scénario identifié comme non conforme."@,
        "Interactively deploys countermeasures for every scenario identified as non-compliant."@,
    )
}

/// The catalog card of the full pass ("all"), in French when `fr`.
pub open spec fn full_pass_card_is(card: Card, fr: bool) -> bool {
    &&& card.border == Tone::Yellow
    &&& card.title@ == "  [all] "@ + pick(fr, "CONTRÔLE GLOBAL INTÉGRAL"@, "FULL COMPREHENSIVE CONTROL"@)
    &&& card.spaced_title
    &&& card.label_width == 24
    &&& card.value_width == 60
    &&& frame_fits(card)
    &&& rows_view(card.rows@) == seq![
        (
            pick(fr, "NOM DU SCÉNARIO (-check)"@, "SCENARIO NAME (-check)"@),
            "all"@,
            ValueStyle::Bold(Tone::Magenta),
        ),
    ] + labeled_rows(
        wrap_lines(all_test_text(fr), 60),
        pick(fr, "TEST CONCRET RÉALISÉ"@, "CONCRETE TEST PERFORMED"@),
        ValueStyle::Plain,
    ) + labeled_rows(
        wrap_lines(all_shield_text(fr), 60),
        pick(fr, "BOUCLIER DE REMÉDIATION"@, "REMEDIATION SHIELD"@),
        ValueStyle::Bold(Tone::Green),
    )
}

/// The catalog card of the full pass.
pub fn full_pass_card(fr: bool) -> (card: Card)
    ensures
        full_pass_card_is(card, fr),
{
    let title = owned(
        if fr {
            "  [all] CONTRÔLE GLOBAL INTÉGRAL"
        } else {
            "  [all] FULL COMPREHENSIVE CONTROL"
        },
    );
    let mut rows: Vec<CardRow> = Vec::new();
    push_row(
        &mut rows,
        if fr { "NOM DU SCÉNARIO (-check)" } else { "SCENARIO NAME (-check)" },
        owned("all"),
        ValueStyle::Bold(Tone::Magenta),
    );
    push_wrapped_rows(
        &mut rows,
        if fr {
            "Exécute l'intégralité des 14 scénarios séquentiellement pour un audit complet de la machine hôte."
        } else {
            "Executes all 14 scenarios sequentially for a complete posture assessment of the host machine."
        },
        CARD_WIDTH - 32,
        if fr { "TEST CONCRET RÉALISÉ" } else { "CONCRETE TEST PERFORMED" },
        ValueStyle::Plain,
    );
    push_wrapped_rows(
        &mut rows,
        if fr {
            "Déploie interactivement les contre-mesures pour chaque scénario identifié comme non conforme."
        } else {
            "Interactively deploys countermeasures for every scenario identified as non-compliant."
        },
        CARD_WIDTH - 32,
        if fr { "BOUCLIER DE REMÉDIATION" } else { "REMEDIATION SHIELD" },
        ValueStyle::Bold(Tone::Green),
    );
    proof {
        reveal_strlit("  [all] CONTRÔLE GLOBAL INTÉGRAL");
        reveal_strlit("  [all] FULL COMPREHENSIVE CONTROL");
        reveal_strlit("  [all] ");
        reveal_strlit("CONTRÔLE GLOBAL INTÉGRAL");
        reveal_strlit("FULL COMPREHENSIVE CONTROL");
        assert(title@ =~= "  [all] "@ + pick(fr, "CONTRÔLE GLOBAL INTÉGRAL"@, "FULL COMPREHENSIVE CONTROL"@));
        assert(rows_view(rows@) =~= seq![
            (
                pick(fr, "NOM DU SCÉNARIO (-check)"@, "SCENARIO NAME (-check)"@),
                "all"@,
                ValueStyle::Bold(Tone::Magenta),
            ),
        ] + labeled_rows(
            wrap_lines(all_test_text(fr), 60),
            pick(fr, "TEST CONCRET RÉALISÉ"@, "CONCRETE TEST PERFORMED"@),
            ValueStyle::Plain,
        ) + labeled_rows(
            wrap_lines(all_shield_text(fr), 60),
            pick(fr, "BOUCLIER DE REMÉDIATION"@, "REMEDIATION SHIELD"@),
            ValueStyle::Bold(Tone::Green),
        ));
    }
    Card {
        border: Tone::Yellow,
        title,
        spaced_title: true,
        label_width: CARD_WIDTH - 68,
        value_width: CARD_WIDTH - 32,
        rows,
    }
}

} // verus!

verus! {

// ---------------------------------------------------------------------------
// Laws of the cards
// ---------------------------------------------------------------------------

/// Report cards keep to their frame: each card's label and value columns,
/// with the borders and separators, add up to `CARD_WIDTH`, and every row of
/// an OWASP card or of a scenario result card is drawn exactly `CARD_WIDTH`
/// columns wide, the one exception being a wrapped line that is a single word
/// longer than the value column.
pub proof fn lemma_report_cards_fit(
    owasp: Card,
    result: OwaspCheckResult,
    defend: Card,
    checked: DefendCheckResult,
    fr: bool,
)
    requires
        owasp_card_is(owasp, result, fr),
        defend_card_is(defend, checked, fr),
    ensures
        frame_fits(owasp),
        frame_fits(defend),
        forall|k: int|
            0 <= k < owasp.rows.len() ==> row_columns(owasp, #[trigger] owasp.rows@[k])
                == CARD_WIDTH || (k >= 3 && no_white_space(owasp.rows@[k].value@)),
        forall|k: int|
            0 <= k < defend.rows.len() ==> row_columns(defend, #[trigger] defend.rows@[k])
                == CARD_WIDTH || (k >= 1 && no_white_space(defend.rows@[k].value@)),
{
    reveal_strlit("STATUT");
    reveal_strlit("STATUS");
    reveal_strlit("CODE HTTP");
    reveal_strlit("HTTP CODE");
    reveal_strlit("LATENCE");
    reveal_strlit("LATENCY");
    reveal_strlit("DÉTAILS");
    reveal_strlit("DETAILS");
    reveal_strlit("HTTP ");
    reveal_strlit("N/A");
    reveal_strlit(" ms");
    reveal_strlit("[SÉCURISÉ]");
    reveal_strlit("[SECURE]");
    reveal_strlit("[ATTENTION]");
    reveal_strlit("[WARNING]");
    reveal_strlit("[VULNÉRABLE]");
    reveal_strlit("[VULNERABLE]");
    reveal_strlit("[ERREUR]");
    reveal_strlit("[ERROR]");
    reveal_strlit("POSTURE DÉFENSIVE");
    reveal_strlit("DEFENSE STATUS");
    reveal_strlit("CONSTAT FACTUEL");
    reveal_strlit("FACTUAL FINDINGS");
    reveal_strlit("[+] STATUT : CONTRÔLE RÉUSSI (SYSTÈME SÉCURISÉ)");
    reveal_strlit("[+] STATUS: Security control PASSED. System is SECURE.");
    reveal_strlit("[!] STATUT : AVERTISSEMENT (PROTECTION PARTIELLE)");
    reveal_strlit("[!] STATUS: Security control WARNING (Partial shield).");
    reveal_strlit("[!] STATUT : ÉCHEC DU CONTRÔLE (SYSTÈME NON CONFORME)");
    reveal_strlit("[!] STATUS: Security control FAILED. System is NON-COMPLIANT.");
    reveal_strlit("[-] STATUT : ERREUR D'ÉVALUATION SYSTÈME");
    reveal_strlit("[-] STATUS: SYSTEM EVALUATION ERROR");
    reveal_strlit("");
    let details = pick(fr, result.details_fr@, result.details_en@);
    let findings = pick(fr, checked.findings_fr@, checked.findings_en@);
    lemma_wrap_text_laws(details, 72);
    lemma_wrap_text_laws(findings, 67);
    let code: u16 = match result.status_code {
        Some(c) => c,
        None => 0,
    };
    lemma_decimal_len_bounds(code, result.latency_ms);
    let ov = rows_view(owasp.rows@);
    assert(ov.len() == owasp.rows@.len());
    assert forall|k: int| 0 <= k < owasp.rows.len() implies row_columns(
        owasp,
        #[trigger] owasp.rows@[k],
    ) == CARD_WIDTH || (k >= 3 && no_white_space(owasp.rows@[k].value@)) by {
        assert(ov[k] == row_view(owasp.rows@[k]));
        if k >= 3 {
            let l = wrap_lines(details, 72)[k - 3];
            assert(owasp.rows@[k].value@ == l);
            lemma_len_le_byte_len(l);
        }
    }
    let dv = rows_view(defend.rows@);
    assert(dv.len() == defend.rows@.len());
    assert forall|k: int| 0 <= k < defend.rows.len() implies row_columns(
        defend,
        #[trigger] defend.rows@[k],
    ) == CARD_WIDTH || (k >= 1 && no_white_space(defend.rows@[k].value@)) by {
        assert(dv[k] == row_view(defend.rows@[k]));
        if k >= 1 {
            let l = wrap_lines(findings, 67)[k - 1];
            assert(defend.rows@[k].value@ == l);
            lemma_len_le_byte_len(l);
        }
    }
}

} // verus!

verus! {

/// A report card is coloured by its verdict, both its border and its status
/// badge: Secure is green, Warning yellow, Vulnerable red and Error magenta.
pub proof fn lemma_card_colours(card: Card, result: OwaspCheckResult, dcard: Card, checked: DefendCheckResult, fr: bool)
    requires
        owasp_card_is(card, result, fr),
        defend_card_is(dcard, checked, fr),
    ensures
        verdict_tone(Verdict::Secure) == Tone::Green,
        verdict_tone(Verdict::Warning) == Tone::Yellow,
        verdict_tone(Verdict::Vulnerable) == Tone::Red,
        verdict_tone(Verdict::Error) == Tone::Magenta,
        card.border == verdict_tone(result.verdict),
        card.rows@[0].style == ValueStyle::Bold(verdict_tone(result.verdict)),
        dcard.border == verdict_tone(checked.verdict),
        dcard.rows@[0].style == ValueStyle::Bold(verdict_tone(checked.verdict)),
{
    assert(rows_view(card.rows@).len() == card.rows@.len());
    assert(rows_view(card.rows@)[0].2 == ValueStyle::Bold(verdict_tone(result.verdict)));
    assert(rows_view(card.rows@)[0] == row_view(card.rows@[0]));
    assert(rows_view(dcard.rows@).len() == dcard.rows@.len());
    assert(rows_view(dcard.rows@)[0].2 == ValueStyle::Bold(verdict_tone(checked.verdict)));
    assert(rows_view(dcard.rows@)[0] == row_view(dcard.rows@[0]));
}

} // verus!
