//! Building the preset catalog from INI-style configuration text.
//!
//! One section per preset, the section name being the preset's integer id.
//! Each step is given by six properties, in order: `id`, `description`,
//! `conditional` (`0` or `1`), `delay_after` (milliseconds), `expected`,
//! `action`. A malformed entry fails catalog construction entirely: the
//! engine never runs against an inconsistent catalog.

use vstd::prelude::*;
use vstd::string::StringSliceAdditionalSpecFns;

use crate::catalog::AircraftProcedures;
use crate::catalog::Preset;
use crate::catalog::ProcedureStep;

verus! {

/// Why catalog construction failed.
#[derive(Clone, Copy, Debug, PartialEq, Eq, Structural)]
pub enum CatalogError {
    /// The text is not well-formed INI.
    Syntax,
    /// A section's name is not a positive integer (or properties stand
    /// before any section header).
    BadPresetName,
    /// Two sections name the same preset id.
    DuplicatePresetId,
    /// A preset has no steps.
    EmptyPreset,
    /// A step is malformed: fields missing, out of order, or not of the
    /// required shape.
    BadStep,
    /// Two steps of one preset carry the same step id.
    DuplicateStepId,
}

/// One key-value property of a configuration section.
pub struct ConfigEntry {
    pub key: String,
    pub value: String,
}

/// One section of the configuration: its name (`None` for properties that
/// stand before any section header) and its properties in document order.
pub struct ConfigSection {
    pub name: Option<String>,
    pub entries: Vec<ConfigEntry>,
}

/// A step at the specification level: id, description, conditional flag,
/// settle delay, expected-state code, action code.
pub type StepV = (u64, Seq<char>, bool, u64, Seq<char>, Seq<char>);

/// A preset at the specification level: its id and its steps in order.
pub type PresetV = (u64, Seq<StepV>);

/// A section at the specification level: its name and its properties.
pub type SectionV = (Option<Seq<char>>, Seq<(Seq<char>, Seq<char>)>);

/// The key-value pairs of a section, as text.
pub open spec fn entries_view(es: Seq<ConfigEntry>) -> Seq<(Seq<char>, Seq<char>)> {
    es.map_values(|e: ConfigEntry| (e.key@, e.value@))
}

/// A section, as text.
pub open spec fn section_view(s: ConfigSection) -> SectionV {
    (
        match s.name {
            Some(n) => Some(n@),
            None => None,
        },
        entries_view(s.entries@),
    )
}

/// A whole configuration document, as text.
pub open spec fn document_view(v: Seq<ConfigSection>) -> Seq<SectionV> {
    v.map_values(|s: ConfigSection| section_view(s))
}

/// A step of the catalog, at the specification level.
pub open spec fn step_view(s: ProcedureStep) -> StepV {
    (s.id, s.description@, s.is_conditional, s.delay_after_ms, s.expected_state_code@, s.action_code@)
}

/// A preset of the catalog, at the specification level.
pub open spec fn preset_view(p: Preset) -> PresetV {
    (p.id, p.steps@.map_values(|s: ProcedureStep| step_view(s)))
}

/// The presets of the catalog, at the specification level.
pub open spec fn presets_view(s: Seq<Preset>) -> Seq<PresetV> {
    s.map_values(|p: Preset| preset_view(p))
}

/// The whole catalog, at the specification level.
pub open spec fn catalog_view(c: AircraftProcedures) -> Seq<PresetV> {
    presets_view(c.presets@)
}

/// The UTF-8 bytes a string's characters encode to.
pub open spec fn str_bytes(s: Seq<char>) -> Seq<u8> {
    vstd::utf8::encode_utf8(s)
}

/// A non-empty, all-decimal-digit byte string.
pub open spec fn is_dec_digits(b: Seq<u8>) -> bool {
    b.len() >= 1 && forall|i: int| 0 <= i < b.len() ==> 48 <= #[trigger] b[i] <= 57
}

/// The value of a decimal digit string, most significant digit first.
pub open spec fn dec_val(b: Seq<u8>) -> int
    decreases b.len(),
{
    if b.len() == 0 {
        0
    } else {
        dec_val(b.drop_last()) * 10 + (b.last() - 48)
    }
}

/// The conditional flag a value encodes: the single byte `0` or `1`.
pub open spec fn flag_val(b: Seq<u8>) -> Option<bool> {
    if b.len() == 1 && b[0] == 48 {
        Some(false)
    } else if b.len() == 1 && b[0] == 49 {
        Some(true)
    } else {
        None
    }
}

/// What INI text parses to: `None` for malformed text, else the named
/// sections with their key-value properties, in document order.
pub uninterp spec fn ini_document_of(text: Seq<char>) -> Option<Seq<SectionV>>;

/// Relies on ini::Ini::load_from_str: it parses INI text into named
/// sections of key-value properties, kept in document order (a repeated
/// section header and a repeated key each keep their own entry), failing
/// on malformed text; the result depends on the text alone.
#[verifier::external_body]
fn parse_ini_text(text: &str) -> (r: Option<Vec<ConfigSection>>)
    ensures
        match r {
            Some(v) => ini_document_of(text@) == Some(document_view(v@)),
            None => ini_document_of(text@) is None,
        },
{
    let doc = match ini::Ini::load_from_str(text) {
        Ok(d) => d,
        Err(_) => return None,
    };
    let mut sections = Vec::new();
    for (name, props) in doc.iter() {
        let mut entries = Vec::new();
        for (k, v) in props.iter() {
            entries.push(ConfigEntry { key: k.to_owned(), value: v.to_owned() });
        }
        sections.push(ConfigSection { name: name.map(|n| n.to_owned()), entries });
    }
    Some(sections)
}

/// A digit string's value is never negative.
proof fn lemma_dec_val_nonneg(b: Seq<u8>)
    requires
        forall|i: int| 0 <= i < b.len() ==> 48 <= #[trigger] b[i],
    ensures
        dec_val(b) >= 0,
    decreases b.len(),
{
    if b.len() > 0 {
        lemma_dec_val_nonneg(b.drop_last());
    }
}

/// Extending a digit string never shrinks its value.
proof fn lemma_dec_val_prefix_le(b: Seq<u8>, i: int, j: int)
    requires
        forall|k: int| 0 <= k < b.len() ==> 48 <= #[trigger] b[k] <= 57,
        0 <= i <= j <= b.len(),
    ensures
        dec_val(b.take(i)) <= dec_val(b.take(j)),
    decreases j - i,
{
    if i < j {
        lemma_dec_val_prefix_le(b, i, j - 1);
        assert(b.take(j).drop_last() =~= b.take(j - 1));
        lemma_dec_val_nonneg(b.take(j - 1));
    }
}

/// Parse a decimal u64 from the whole string: decimal digits only, no
/// sign, no blanks; fails when the string holds anything else or the value
/// exceeds `u64::MAX`.
pub fn parse_u64(s: &str) -> (r: Option<u64>)
    ensures
        match r {
            Some(v) => is_dec_digits(s.spec_bytes()) && v == dec_val(s.spec_bytes()),
            None => !(is_dec_digits(s.spec_bytes()) && dec_val(s.spec_bytes()) <= u64::MAX),
        },
{
    let b = s.as_bytes();
    let n = b.len();
    if n == 0 {
        return None;
    }
    let mut acc: u64 = 0;
    let mut i: usize = 0;
    while i < n
        invariant
            b@ == s.spec_bytes(),
            n == b@.len(),
            0 < n,
            i <= n,
            forall|k: int| 0 <= k < i ==> 48 <= #[trigger] b@[k] <= 57,
            acc == dec_val(b@.take(i as int)),
        decreases n - i,
    {
        let c = b[i];
        if c < 48 || c > 57 {
            return None;
        }
        let d = (c - 48) as u64;
        proof {
            assert(b@.take(i as int + 1).drop_last() =~= b@.take(i as int));
            lemma_dec_val_nonneg(b@.take(i as int));
        }
        let acc10 = match acc.checked_mul(10) {
            Some(x) => x,
            None => {
                proof {
                    if is_dec_digits(b@) {
                        lemma_dec_val_prefix_le(b@, i as int + 1, n as int);
                        assert(b@.take(n as int) =~= b@);
                    }
                }
                return None;
            },
        };
        let acc2 = match acc10.checked_add(d) {
            Some(x) => x,
            None => {
                proof {
                    if is_dec_digits(b@) {
                        lemma_dec_val_prefix_le(b@, i as int + 1, n as int);
                        assert(b@.take(n as int) =~= b@);
                    }
                }
                return None;
            },
        };
        acc = acc2;
        i = i + 1;
    }
    proof {
        assert(b@.take(n as int) =~= b@);
    }
    Some(acc)
}

/// Parse a conditional flag: the single character `0` or `1`.
fn parse_flag(s: &str) -> (r: Option<bool>)
    ensures
        r == flag_val(s.spec_bytes()),
{
    let b = s.as_bytes();
    if b.len() == 1 {
        let c = b[0];
        if c == 48 {
            return Some(false);
        }
        if c == 49 {
            return Some(true);
        }
    }
    None
}

/// What six consecutive properties define: a step, when the keys are
/// `id`, `description`, `conditional`, `delay_after`, `expected`, `action`
/// in that order and the numeric fields parse.
pub open spec fn chunk_step_v(c: Seq<(Seq<char>, Seq<char>)>) -> Option<StepV> {
    if c.len() == 6 && c[0].0 == "id"@ && c[1].0 == "description"@ && c[2].0 == "conditional"@
        && c[3].0 == "delay_after"@ && c[4].0 == "expected"@ && c[5].0 == "action"@
        && is_dec_digits(str_bytes(c[0].1)) && dec_val(str_bytes(c[0].1)) <= u64::MAX
        && flag_val(str_bytes(c[2].1)) is Some && is_dec_digits(str_bytes(c[3].1)) && dec_val(
        str_bytes(c[3].1),
    ) <= u64::MAX {
        Some(
            (
                dec_val(str_bytes(c[0].1)) as u64,
                c[1].1,
                flag_val(str_bytes(c[2].1))->0,
                dec_val(str_bytes(c[3].1)) as u64,
                c[4].1,
                c[5].1,
            ),
        )
    } else {
        None
    }
}

/// What a section's property list defines: its steps in order, six
/// properties each; `None` when any chunk is malformed or a partial chunk
/// remains.
pub open spec fn steps_of_entries_v(c: Seq<(Seq<char>, Seq<char>)>) -> Option<Seq<StepV>>
    decreases c.len(),
{
    if c.len() == 0 {
        Some(Seq::empty())
    } else if c.len() < 6 {
        None
    } else {
        match chunk_step_v(c.take(6)) {
            None => None,
            Some(st) => match steps_of_entries_v(c.skip(6)) {
                None => None,
                Some(rest) => Some(seq![st] + rest),
            },
        }
    }
}

/// Pairwise distinct step ids.
pub open spec fn distinct_step_ids(sts: Seq<StepV>) -> bool {
    forall|i: int, j: int| 0 <= i < j < sts.len() ==> sts[i].0 != sts[j].0
}

/// What one section defines: a preset whose id is the section's name (a
/// positive integer) and whose steps are its properties, or the error that
/// rules it out.
pub open spec fn preset_of_section_v(s: SectionV) -> Result<PresetV, CatalogError> {
    if s.0 is None {
        Err(CatalogError::BadPresetName)
    } else {
        let nb = str_bytes(s.0->0);
        if !(is_dec_digits(nb) && 1 <= dec_val(nb) && dec_val(nb) <= u64::MAX) {
            Err(CatalogError::BadPresetName)
        } else {
            match steps_of_entries_v(s.1) {
                None => Err(CatalogError::BadStep),
                Some(sts) => if sts.len() == 0 {
                    Err(CatalogError::EmptyPreset)
                } else if !distinct_step_ids(sts) {
                    Err(CatalogError::DuplicateStepId)
                } else {
                    Ok((dec_val(nb) as u64, sts))
                },
            }
        }
    }
}

/// What a document defines: its presets in order, the first error winning;
/// a preset id that a later section repeats is a `DuplicatePresetId`. An
/// unnamed section without properties defines nothing and is passed over
/// (an INI document always carries one, its general section, even when
/// nothing stands before the first header).
pub open spec fn catalog_of_doc(d: Seq<SectionV>) -> Result<Seq<PresetV>, CatalogError>
    decreases d.len(),
{
    if d.len() == 0 {
        Ok(Seq::empty())
    } else {
        match catalog_of_doc(d.drop_last()) {
            Err(e) => Err(e),
            Ok(ps) => if d.last().0 is None && d.last().1.len() == 0 {
                Ok(ps)
            } else {
                match preset_of_section_v(d.last()) {
                    Err(e) => Err(e),
                    Ok(p) => if exists|k: int| 0 <= k < ps.len() && #[trigger] ps[k].0 == p.0 {
                        Err(CatalogError::DuplicatePresetId)
                    } else {
                        Ok(ps.push(p))
                    },
                }
            },
        }
    }
}

/// Once a prefix of the document fails, the whole document fails the same
/// way.
proof fn lemma_catalog_err_extends(d: Seq<SectionV>, m: int)
    requires
        0 <= m <= d.len(),
        catalog_of_doc(d.take(m)) is Err,
    ensures
        catalog_of_doc(d) == catalog_of_doc(d.take(m)),
    decreases d.len() - m,
{
    if m < d.len() {
        assert(d.take(m + 1).drop_last() =~= d.take(m));
        lemma_catalog_err_extends(d, m + 1);
    } else {
        assert(d.take(m) =~= d);
    }
}

/// Parse the six properties at `base` as one step.
fn parse_step(entries: &Vec<ConfigEntry>, base: usize) -> (r: Option<ProcedureStep>)
    requires
        base + 6 <= entries@.len(),
        entries@.len() <= usize::MAX,
    ensures
        match r {
            Some(st) => chunk_step_v(
                entries_view(entries@).subrange(base as int, base as int + 6),
            ) == Some(step_view(st)),
            None => chunk_step_v(
                entries_view(entries@).subrange(base as int, base as int + 6),
            ) is None,
        },
{
    let k_id = "id".to_owned();
    let k_description = "description".to_owned();
    let k_conditional = "conditional".to_owned();
    let k_delay = "delay_after".to_owned();
    let k_expected = "expected".to_owned();
    let k_action = "action".to_owned();
    if !(entries[base].key == k_id && entries[base + 1].key == k_description
        && entries[base + 2].key == k_conditional && entries[base + 3].key == k_delay
        && entries[base + 4].key == k_expected && entries[base + 5].key == k_action) {
        return None;
    }
    let id = match parse_u64(entries[base].value.as_str()) {
        Some(v) => v,
        None => return None,
    };
    let is_conditional = match parse_flag(entries[base + 2].value.as_str()) {
        Some(v) => v,
        None => return None,
    };
    let delay_after_ms = match parse_u64(entries[base + 3].value.as_str()) {
        Some(v) => v,
        None => return None,
    };
    Some(
        ProcedureStep {
            id,
            description: entries[base + 1].value.clone(),
            is_conditional,
            delay_after_ms,
            expected_state_code: entries[base + 4].value.clone(),
            action_code: entries[base + 5].value.clone(),
        },
    )
}

/// The continuation invariant of the step loop: what the unparsed suffix
/// yields decides what the whole property list yields, the parsed steps
/// standing in front.
spec fn steps_cont_ok(ev: Seq<(Seq<char>, Seq<char>)>, base: int, outv: Seq<StepV>) -> bool {
    match steps_of_entries_v(ev.skip(base)) {
        Some(t) => steps_of_entries_v(ev) == Some(outv + t),
        None => steps_of_entries_v(ev) is None,
    }
}

/// Parse a section's whole property list as steps, six properties each.
fn parse_steps(entries: &Vec<ConfigEntry>) -> (r: Option<Vec<ProcedureStep>>)
    ensures
        match r {
            Some(v) => steps_of_entries_v(entries_view(entries@)) == Some(
                v@.map_values(|s: ProcedureStep| step_view(s)),
            ),
            None => steps_of_entries_v(entries_view(entries@)) is None,
        },
{
    let ghost ev = entries_view(entries@);
    let n = entries.len();
    let mut out: Vec<ProcedureStep> = Vec::new();
    let mut base: usize = 0;
    proof {
        assert(ev.skip(0) =~= ev);
        let outv = out@.map_values(|s: ProcedureStep| step_view(s));
        let s0 = steps_of_entries_v(ev);
        if s0 is Some {
            assert((outv + s0->0) =~= s0->0);
        }
    }
    while base < n
        invariant
            n == entries@.len(),
            ev == entries_view(entries@),
            base <= n,
            steps_cont_ok(ev, base as int, out@.map_values(|s: ProcedureStep| step_view(s))),
        decreases n - base,
    {
        if n - base < 6 {
            return None;
        }
        proof {
            assert(ev.skip(base as int).take(6) =~= ev.subrange(base as int, base as int + 6));
        }
        match parse_step(entries, base) {
            None => {
                return None;
            },
            Some(st) => {
                proof {
                    assert(ev.skip(base as int).skip(6) =~= ev.skip(base as int + 6));
                    let outv = out@.map_values(|s: ProcedureStep| step_view(s));
                    let outv2 = out@.push(st).map_values(|s: ProcedureStep| step_view(s));
                    assert(outv2 =~= outv + seq![step_view(st)]);
                    let sfx = steps_of_entries_v(ev.skip(base as int + 6));
                    if sfx is Some {
                        let t = sfx->0;
                        assert((outv + (seq![step_view(st)] + t)) =~= (outv2 + t));
                    }
                }
                out.push(st);
                base = base + 6;
            },
        }
    }
    proof {
        assert(ev.skip(n as int) =~= Seq::<(Seq<char>, Seq<char>)>::empty());
        assert((out@.map_values(|s: ProcedureStep| step_view(s)) + Seq::<StepV>::empty()) =~= out@.map_values(
            |s: ProcedureStep| step_view(s),
        ));
    }
    Some(out)
}

/// Whether two steps of the list carry the same id.
fn find_duplicate_step_ids(steps: &Vec<ProcedureStep>) -> (r: bool)
    ensures
        r == !distinct_step_ids(steps@.map_values(|s: ProcedureStep| step_view(s))),
{
    let ghost sv = steps@.map_values(|s: ProcedureStep| step_view(s));
    let n = steps.len();
    let mut i: usize = 0;
    while i < n
        invariant
            n == steps@.len(),
            sv == steps@.map_values(|s: ProcedureStep| step_view(s)),
            i <= n,
            forall|a: int, b: int| 0 <= a < b < n && a < i ==> sv[a].0 != sv[b].0,
        decreases n - i,
    {
        let mut j: usize = i + 1;
        while j < n
            invariant
                n == steps@.len(),
                sv == steps@.map_values(|s: ProcedureStep| step_view(s)),
                i < n,
                i < j <= n,
                forall|a: int, b: int| 0 <= a < b < n && a < i ==> sv[a].0 != sv[b].0,
                forall|b: int| i < b < j ==> sv[i as int].0 != sv[b].0,
            decreases n - j,
        {
            if steps[i].id == steps[j].id {
                assert(sv[i as int].0 == sv[j as int].0);
                return true;
            }
            j = j + 1;
        }
        i = i + 1;
    }
    false
}

/// Parse one section as a preset: its name is the preset id, its
/// properties are its steps.
fn parse_preset(s: &ConfigSection) -> (r: Result<Preset, CatalogError>)
    ensures
        match r {
            Ok(p) => p.wf() && preset_of_section_v(section_view(*s)) == Ok::<PresetV, CatalogError>(
                preset_view(p),
            ),
            Err(e) => preset_of_section_v(section_view(*s)) == Err::<PresetV, CatalogError>(e),
        },
{
    let name = match &s.name {
        Some(n) => n,
        None => return Err(CatalogError::BadPresetName),
    };
    let id = match parse_u64(name.as_str()) {
        Some(v) => v,
        None => return Err(CatalogError::BadPresetName),
    };
    if id == 0 {
        return Err(CatalogError::BadPresetName);
    }
    let steps = match parse_steps(&s.entries) {
        Some(v) => v,
        None => return Err(CatalogError::BadStep),
    };
    if steps.len() == 0 {
        return Err(CatalogError::EmptyPreset);
    }
    if find_duplicate_step_ids(&steps) {
        return Err(CatalogError::DuplicateStepId);
    }
    let p = Preset { id, steps };
    proof {
        let sv = p.steps@.map_values(|st: ProcedureStep| step_view(st));
        assert forall|a: int, b: int|
            0 <= a < b < p.steps@.len() implies p.steps@[a].id != p.steps@[b].id by {
            assert(sv[a] == step_view(p.steps@[a]));
            assert(sv[b] == step_view(p.steps@[b]));
        }
    }
    Ok(p)
}

/// Whether some already-built preset carries the given id.
fn id_already_used(out: &Vec<Preset>, id: u64) -> (r: bool)
    ensures
        r == exists|k: int| 0 <= k < out@.len() && (#[trigger] out@[k]).id == id,
{
    let mut k: usize = 0;
    while k < out.len()
        invariant
            k <= out@.len(),
            forall|t: int| 0 <= t < k ==> (#[trigger] out@[t]).id != id,
        decreases out@.len() - k,
    {
        if out[k].id == id {
            return true;
        }
        k = k + 1;
    }
    false
}

/// Build the catalog from parsed configuration sections: one preset per
/// section, in order; any malformed section or duplicate preset id fails
/// the whole catalog.
pub fn from_sections(sections: Vec<ConfigSection>) -> (r: Result<AircraftProcedures, CatalogError>)
    ensures
        match r {
            Ok(c) => c.wf() && catalog_of_doc(document_view(sections@)) == Ok::<
                Seq<PresetV>,
                CatalogError,
            >(catalog_view(c)),
            Err(e) => catalog_of_doc(document_view(sections@)) == Err::<Seq<PresetV>, CatalogError>(
                e,
            ),
        },
{
    let ghost dv = document_view(sections@);
    let n = sections.len();
    let mut out: Vec<Preset> = Vec::new();
    let mut i: usize = 0;
    proof {
        assert(dv.take(0) =~= Seq::<SectionV>::empty());
        assert(presets_view(out@) =~= Seq::<PresetV>::empty());
    }
    while i < n
        invariant
            n == sections@.len(),
            dv == document_view(sections@),
            i <= n,
            catalog_of_doc(dv.take(i as int)) == Ok::<Seq<PresetV>, CatalogError>(
                presets_view(out@),
            ),
            forall|k: int| 0 <= k < out@.len() ==> (#[trigger] out@[k]).wf(),
            forall|a: int, b: int| 0 <= a < b < out@.len() ==> out@[a].id != out@[b].id,
        decreases n - i,
    {
        proof {
            assert(dv.take(i as int + 1).drop_last() =~= dv.take(i as int));
            assert(dv.take(i as int + 1).last() == section_view(sections@[i as int]));
        }
        if sections[i].name.is_none() && sections[i].entries.len() == 0 {
            // an empty unnamed section (the document's general section)
            // defines nothing
            i = i + 1;
            continue;
        }
        let p = match parse_preset(&sections[i]) {
            Ok(p) => p,
            Err(e) => {
                proof {
                    lemma_catalog_err_extends(dv, i as int + 1);
                    assert(dv.take(n as int) =~= dv);
                }
                return Err(e);
            },
        };
        proof {
            assert(forall|t: int|
                0 <= t < out@.len() ==> (#[trigger] presets_view(out@)[t]).0 == out@[t].id);
        }
        if id_already_used(&out, p.id) {
            proof {
                let k = choose|k: int| 0 <= k < out@.len() && (#[trigger] out@[k]).id == p.id;
                assert(presets_view(out@)[k].0 == p.id);
                lemma_catalog_err_extends(dv, i as int + 1);
                assert(dv.take(n as int) =~= dv);
            }
            return Err(CatalogError::DuplicatePresetId);
        }
        proof {
            assert(forall|t: int|
                0 <= t < presets_view(out@).len() ==> (#[trigger] presets_view(out@)[t]).0
                    != preset_view(p).0);
            assert(presets_view(out@.push(p)) =~= presets_view(out@).push(preset_view(p)));
        }
        out.push(p);
        i = i + 1;
    }
    proof {
        assert(dv.take(n as int) =~= dv);
    }
    Ok(AircraftProcedures { presets: out })
}

/// Build the preset catalog from INI configuration text: one section per
/// preset, named by its integer id, each step given by its six properties
/// in order. Malformed text or entries fail construction entirely, so the
/// engine never sees a partial catalog.
pub fn presets(source: &str) -> (r: Result<AircraftProcedures, CatalogError>)
    ensures
        match r {
            Ok(c) => {
                &&& c.wf()
                &&& ini_document_of(source@) matches Some(doc) && catalog_of_doc(doc) == Ok::<
                    Seq<PresetV>,
                    CatalogError,
                >(catalog_view(c))
            },
            Err(e) => {
                ||| (e == CatalogError::Syntax && ini_document_of(source@) is None)
                ||| (ini_document_of(source@) matches Some(doc) && catalog_of_doc(doc) == Err::<
                    Seq<PresetV>,
                    CatalogError,
                >(e))
            },
        },
{
    let sections = match parse_ini_text(source) {
        Some(v) => v,
        None => return Err(CatalogError::Syntax),
    };
    from_sections(sections)
}

} // verus!
