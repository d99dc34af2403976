//! The CV page: entries read from a YAML sequence, and their markup.
use vstd::prelude::*;
use crate::pages::{fill_template, filled};
use crate::post::{BuildError, CvEntryFault, CvField};
use crate::text::{replace_all, replaced_of};
use crate::yaml::{load_yaml, lookup, text_of, yaml_docs_of, YamlValue};

verus! {

/// One position held, in the order the CV document lists it.
pub struct CvEntry {
    pub company: String,
    pub start_date: String,
    pub end_date: String,
    pub position: String,
    pub technologies: Vec<String>,
    pub highlights: Vec<String>,
}

/// A CV entry as plain values.
pub ghost struct CvEntryView {
    pub company: Seq<char>,
    pub start_date: Seq<char>,
    pub end_date: Seq<char>,
    pub position: Seq<char>,
    pub technologies: Seq<Seq<char>>,
    pub highlights: Seq<Seq<char>>,
}

impl View for CvEntry {
    type V = CvEntryView;

    open spec fn view(&self) -> CvEntryView {
        CvEntryView {
            company: self.company@,
            start_date: self.start_date@,
            end_date: self.end_date@,
            position: self.position@,
            technologies: crate::pages::string_views(self.technologies@),
            highlights: crate::pages::string_views(self.highlights@),
        }
    }
}

/// The string scalars among `items`, in order; other items are passed over.
pub open spec fn texts_in(items: Seq<YamlValue>) -> Seq<Seq<char>>
    decreases items.len(),
{
    if items.len() == 0 {
        Seq::empty()
    } else {
        match text_of(items.last()) {
            Some(t) => texts_in(items.drop_last()).push(t),
            None => texts_in(items.drop_last()),
        }
    }
}

/// Whether the entry holds `key` as a string.
pub open spec fn has_text(entry: YamlValue, key: Seq<char>) -> bool {
    lookup(entry, key) is Some && text_of(lookup(entry, key)->0) is Some
}

/// Whether the entry holds `key` as a sequence.
pub open spec fn has_list(entry: YamlValue, key: Seq<char>) -> bool {
    lookup(entry, key) is Some && lookup(entry, key)->0 is List
}

/// The string of field `key` of an entry that holds it.
pub open spec fn text_at(entry: YamlValue, key: Seq<char>) -> Seq<char> {
    text_of(lookup(entry, key)->0)->0
}

/// The string items of list field `key` of an entry that holds it.
pub open spec fn texts_at(entry: YamlValue, key: Seq<char>) -> Seq<Seq<char>> {
    texts_in(lookup(entry, key)->0->List_0@)
}

/// `field` where the entry lacks it.
pub open spec fn if_missing(present: bool, field: CvField) -> Seq<CvField> {
    if present {
        Seq::empty()
    } else {
        seq![field]
    }
}

/// Every required field that an entry lacks or holds in the wrong shape, in
/// field order; an entry that is not a mapping lacks them all.
pub open spec fn missing_fields(entry: YamlValue) -> Seq<CvField> {
    if_missing(has_text(entry, "company"@), CvField::Company) + if_missing(
        has_text(entry, "startDate"@),
        CvField::StartDate,
    ) + if_missing(has_text(entry, "endDate"@), CvField::EndDate) + if_missing(
        has_text(entry, "position"@),
        CvField::Position,
    ) + if_missing(has_list(entry, "technologies"@), CvField::Technologies) + if_missing(
        has_list(entry, "highlights"@),
        CvField::Highlights,
    )
}

/// The entry that a complete CV item holds.
pub open spec fn entry_of(entry: YamlValue) -> CvEntryView {
    CvEntryView {
        company: text_at(entry, "company"@),
        start_date: text_at(entry, "startDate"@),
        end_date: text_at(entry, "endDate"@),
        position: text_at(entry, "position"@),
        technologies: texts_at(entry, "technologies"@),
        highlights: texts_at(entry, "highlights"@),
    }
}

/// Every faulty item of the CV sequence, in order: its index and the fields it lacks.
pub open spec fn cv_faults(items: Seq<YamlValue>) -> Seq<(int, Seq<CvField>)>
    decreases items.len(),
{
    if items.len() == 0 {
        Seq::empty()
    } else {
        let m = missing_fields(items.last());
        if m.len() > 0 {
            cv_faults(items.drop_last()).push((items.len() - 1, m))
        } else {
            cv_faults(items.drop_last())
        }
    }
}

/// Why a CV document yields no entries.
pub ghost enum CvFailure {
    Syntax,
    Shape,
    Missing(Seq<(int, Seq<CvField>)>),
}

/// The entries that a CV document holds, or why it holds none.
pub open spec fn cv_document_spec(source: Seq<char>) -> Result<Seq<CvEntryView>, CvFailure> {
    match yaml_docs_of(source) {
        None => Err(CvFailure::Syntax),
        Some(docs) => if docs.len() > 0 {
            match docs[0] {
                YamlValue::List(items) => if cv_faults(items@).len() > 0 {
                    Err(CvFailure::Missing(cv_faults(items@)))
                } else {
                    Ok(items@.map_values(|v: YamlValue| entry_of(v)))
                },
                _ => Err(CvFailure::Shape),
            }
        } else {
            Err(CvFailure::Shape)
        },
    }
}

/// The faults as plain values.
pub open spec fn fault_views(fs: Seq<CvEntryFault>) -> Seq<(int, Seq<CvField>)> {
    fs.map_values(|f: CvEntryFault| (f.entry as int, f.missing@))
}

/// `e` is the build error that reports `f`.
pub open spec fn reports(e: BuildError, f: CvFailure) -> bool {
    match f {
        CvFailure::Syntax => e == BuildError::CvSyntax,
        CvFailure::Shape => e == BuildError::CvShape,
        CvFailure::Missing(m) => match e {
            BuildError::CvMissingFields(fs) => fault_views(fs@) == m,
            _ => false,
        },
    }
}

/// The views of a list of entries.
pub open spec fn entry_views(entries: Seq<CvEntry>) -> Seq<CvEntryView> {
    entries.map_values(|e: CvEntry| e@)
}

/// The string scalars of a list, in order.
fn collect_texts(items: &Vec<YamlValue>) -> (r: Vec<String>)
    ensures
        crate::pages::string_views(r@) == texts_in(items@),
{
    let mut out: Vec<String> = Vec::new();
    let mut i: usize = 0;
    assert(items@.take(0) =~= Seq::<YamlValue>::empty());
    assert(crate::pages::string_views(out@) =~= Seq::<Seq<char>>::empty());
    while i < items.len()
        invariant
            i <= items.len(),
            crate::pages::string_views(out@) == texts_in(items@.take(i as int)),
        decreases items.len() - i,
    {
        assert(items@.take(i + 1).drop_last() =~= items@.take(i as int));
        assert(items@.take(i + 1).last() == items@[i as int]);
        match items[i].as_text() {
            Some(t) => {
                let ghost before = out@;
                out.push(t.clone());
                assert(crate::pages::string_views(out@) =~= crate::pages::string_views(before).push(
                    out@.last()@,
                ));
            },
            None => {},
        }
        i = i + 1;
    }
    assert(items@.take(items@.len() as int) =~= items@);
    out
}

/// A required string field.
fn read_text_field(entry: &YamlValue, key: &str) -> (r: Option<String>)
    ensures
        match r {
            Some(s) => has_text(*entry, key@) && s@ == text_at(*entry, key@),
            None => !has_text(*entry, key@),
        },
{
    match entry.get(key) {
        Some(v) => match v.as_text() {
            Some(t) => Some(t.clone()),
            None => None,
        },
        None => None,
    }
}

/// A required list field, keeping its string items.
fn read_list_field(entry: &YamlValue, key: &str) -> (r: Option<Vec<String>>)
    ensures
        match r {
            Some(v) => has_list(*entry, key@) && crate::pages::string_views(v@) == texts_at(*entry, key@),
            None => !has_list(*entry, key@),
        },
{
    match entry.get(key) {
        Some(v) => match v.as_list() {
            Some(items) => Some(collect_texts(items)),
            None => None,
        },
        None => None,
    }
}

/// Appends `field` where it is missing.
fn note_missing(missing: &mut Vec<CvField>, present: bool, field: CvField)
    ensures
        final(missing)@ == old(missing)@ + if_missing(present, field),
{
    if !present {
        missing.push(field);
    } else {
        assert(old(missing)@ + Seq::<CvField>::empty() =~= old(missing)@);
    }
}

/// Reads one CV entry, or lists every required field it lacks.
pub fn read_cv_entry(entry: &YamlValue) -> (r: Result<CvEntry, Vec<CvField>>)
    ensures
        match r {
            Ok(e) => missing_fields(*entry).len() == 0 && e@ == entry_of(*entry),
            Err(m) => m@ == missing_fields(*entry) && m.len() > 0,
        },
{
    let company = read_text_field(entry, "company");
    let start_date = read_text_field(entry, "startDate");
    let end_date = read_text_field(entry, "endDate");
    let position = read_text_field(entry, "position");
    let technologies = read_list_field(entry, "technologies");
    let highlights = read_list_field(entry, "highlights");
    let mut missing: Vec<CvField> = Vec::new();
    note_missing(&mut missing, company.is_some(), CvField::Company);
    note_missing(&mut missing, start_date.is_some(), CvField::StartDate);
    note_missing(&mut missing, end_date.is_some(), CvField::EndDate);
    note_missing(&mut missing, position.is_some(), CvField::Position);
    note_missing(&mut missing, technologies.is_some(), CvField::Technologies);
    note_missing(&mut missing, highlights.is_some(), CvField::Highlights);
    assert(missing@ =~= missing_fields(*entry));
    match (company, start_date, end_date, position, technologies, highlights) {
        (Some(company), Some(start_date), Some(end_date), Some(position), Some(technologies), Some(highlights)) => {
            Ok(CvEntry { company, start_date, end_date, position, technologies, highlights })
        },
        _ => Err(missing),
    }
}

/// Reads the CV document: one entry per item of its top-level sequence, in
/// order. Where items lack required fields, the error lists every such item
/// with every field it lacks.
pub fn read_cv(source: &str) -> (r: Result<Vec<CvEntry>, BuildError>)
    ensures
        match r {
            Ok(es) => cv_document_spec(source@) == Ok::<_, CvFailure>(entry_views(es@)),
            Err(e) => cv_document_spec(source@) is Err && reports(e, cv_document_spec(source@)->Err_0),
        },
{
    let docs = match load_yaml(source) {
        Some(d) => d,
        None => return Err(BuildError::CvSyntax),
    };
    if docs.len() == 0 {
        return Err(BuildError::CvShape);
    }
    let items = match docs[0].as_list() {
        Some(items) => items,
        None => return Err(BuildError::CvShape),
    };
    let mut out: Vec<CvEntry> = Vec::new();
    let mut faults: Vec<CvEntryFault> = Vec::new();
    let mut i: usize = 0;
    assert(items@.take(0) =~= Seq::<YamlValue>::empty());
    assert(entry_views(out@) =~= Seq::<CvEntryView>::empty());
    assert(fault_views(faults@) =~= Seq::<(int, Seq<CvField>)>::empty());
    assert(items@.take(0).map_values(|v: YamlValue| entry_of(v)) =~= Seq::<CvEntryView>::empty());
    while i < items.len()
        invariant
            i <= items.len(),
            fault_views(faults@) == cv_faults(items@.take(i as int)),
            faults.len() == 0 ==> entry_views(out@) == items@.take(i as int).map_values(|v: YamlValue| entry_of(v)),
            yaml_docs_of(source@) == Some(docs@),
            docs.len() > 0,
            docs@[0] == YamlValue::List(*items),
        decreases items.len() - i,
    {
        assert(items@.take(i + 1).drop_last() =~= items@.take(i as int));
        assert(items@.take(i + 1).last() == items@[i as int]);
        let ghost fs_before = faults@;
        let ghost out_before = out@;
        match read_cv_entry(&items[i]) {
            Ok(e) => {
                out.push(e);
                assert(entry_views(out@) =~= entry_views(out_before).push(out@.last()@));
                assert(items@.take(i + 1).map_values(|v: YamlValue| entry_of(v)) =~= items@.take(i as int).map_values(
                    |v: YamlValue| entry_of(v),
                ).push(entry_of(items@[i as int])));
            },
            Err(m) => {
                faults.push(CvEntryFault { entry: i, missing: m });
                assert(fault_views(faults@) =~= fault_views(fs_before).push((i as int, faults@.last().missing@)));
            },
        }
        i = i + 1;
    }
    assert(items@.take(items@.len() as int) =~= items@);
    if faults.len() > 0 {
        return Err(BuildError::CvMissingFields(faults));
    }
    Ok(out)
}

/// The block that opens the CV page in print.
pub const CV_HEADER: &'static str = "\n        <div class=\"printOnly page-break-after\">\n            <img src=\"/timm.jpg\" alt=\"Timm Preetz\" />\n\n            <h1>Timm Preetz</h1>\n            <pre>from https://timm.preetz.xyz</pre>\n        </div>\n    ";

/// The tag that keeps the CV page out of search indexes, put before `</head>`.
pub const NOINDEX_HEAD: &'static str = "<meta name=\"robots\" content=\"noindex\">\n</head>";

/// The main container of the CV page, with its class.
pub const CV_MAIN: &'static str = "<main class=\"cv\">";

/// One list item per string, in order.
pub open spec fn li_items(xs: Seq<Seq<char>>) -> Seq<char>
    decreases xs.len(),
{
    if xs.len() == 0 {
        Seq::empty()
    } else {
        li_items(xs.drop_last()) + "<li>"@ + xs.last() + "</li>\n"@
    }
}

/// The section of one entry.
pub open spec fn cv_section(e: CvEntryView) -> Seq<char> {
    "<section>"@ + "<h2>"@ + e.company + "</h2>\n"@ + "<span class=\"date\">"@ + e.start_date + " – "@
        + e.end_date + "</span>"@ + "<ul class=\"technologies\">"@ + li_items(e.technologies)
        + "</ul>\n"@ + "<i class=\"role\">"@ + e.position + "</i>"@ + "<ul class=\"highlights\">"@
        + li_items(e.highlights) + "</ul>\n"@ + "</section>"@
}

/// One section per entry, in order.
pub open spec fn cv_sections(es: Seq<CvEntryView>) -> Seq<char>
    decreases es.len(),
{
    if es.len() == 0 {
        Seq::empty()
    } else {
        cv_sections(es.drop_last()) + cv_section(es.last())
    }
}

/// The body of the CV page.
pub open spec fn cv_body(es: Seq<CvEntryView>) -> Seq<char> {
    CV_HEADER@ + cv_sections(es)
}

/// The CV page: the template filled with the body, then the no-index tag and
/// the container's class put in.
pub open spec fn cv_page(template: Seq<char>, es: Seq<CvEntryView>) -> Seq<char> {
    replaced_of(
        replaced_of(filled(template, "CV"@, cv_body(es)), "</head>"@, NOINDEX_HEAD@),
        "<main>"@,
        CV_MAIN@,
    )
}

/// Appends one list item per string.
fn append_items(out: &mut String, xs: &Vec<String>)
    ensures
        final(out)@ == old(out)@ + li_items(crate::pages::string_views(xs@)),
{
    let ghost start = out@;
    let mut i: usize = 0;
    assert(crate::pages::string_views(xs@).take(0) =~= Seq::<Seq<char>>::empty());
    assert(start + Seq::<char>::empty() =~= start);
    while i < xs.len()
        invariant
            i <= xs.len(),
            out@ == start + li_items(crate::pages::string_views(xs@).take(i as int)),
        decreases xs.len() - i,
    {
        let ghost vs = crate::pages::string_views(xs@);
        assert(vs.take(i + 1).drop_last() =~= vs.take(i as int));
        assert(vs.take(i + 1).last() == xs@[i as int]@);
        out.append("<li>");
        out.append(xs[i].as_str());
        out.append("</li>\n");
        assert(out@ =~= start + li_items(vs.take(i + 1)));
        i = i + 1;
    }
    assert(crate::pages::string_views(xs@).take(xs@.len() as int) =~= crate::pages::string_views(xs@));
}

/// The CV body: the print header, then one section per entry, in order.
#[verifier::rlimit(50)]
pub fn cv_markup(entries: &Vec<CvEntry>) -> (r: String)
    ensures
        r@ == cv_body(entry_views(entries@)),
{
    let mut out = String::from_str(CV_HEADER);
    let mut i: usize = 0;
    assert(entry_views(entries@).take(0) =~= Seq::<CvEntryView>::empty());
    assert(CV_HEADER@ + Seq::<char>::empty() =~= CV_HEADER@);
    while i < entries.len()
        invariant
            i <= entries.len(),
            out@ == CV_HEADER@ + cv_sections(entry_views(entries@).take(i as int)),
        decreases entries.len() - i,
    {
        let ghost es = entry_views(entries@);
        let ghost before = out@;
        assert(es.take(i + 1).drop_last() =~= es.take(i as int));
        assert(es.take(i + 1).last() == entries@[i as int]@);
        let e = &entries[i];
        out.append("<section>");
        out.append("<h2>");
        out.append(e.company.as_str());
        out.append("</h2>\n");
        out.append("<span class=\"date\">");
        out.append(e.start_date.as_str());
        out.append(" – ");
        out.append(e.end_date.as_str());
        out.append("</span>");
        out.append("<ul class=\"technologies\">");
        append_items(&mut out, &e.technologies);
        out.append("</ul>\n");
        out.append("<i class=\"role\">");
        out.append(e.position.as_str());
        out.append("</i>");
        out.append("<ul class=\"highlights\">");
        append_items(&mut out, &e.highlights);
        out.append("</ul>\n");
        out.append("</section>");
        assert(out@ =~= before + cv_section(entries@[i as int]@));
        i = i + 1;
    }
    assert(entry_views(entries@).take(entries@.len() as int) =~= entry_views(entries@));
    out
}

/// Builds the CV page from the page template and the CV document; an entry
/// that lacks a required field fails the build, naming that entry.
pub fn build_cv(template: &str, source: &str) -> (r: Result<String, BuildError>)
    ensures
        match r {
            Ok(page) => cv_document_spec(source@) is Ok && page@ == cv_page(template@, cv_document_spec(source@)->Ok_0),
            Err(e) => cv_document_spec(source@) is Err && reports(e, cv_document_spec(source@)->Err_0),
        },
{
    let entries = match read_cv(source) {
        Ok(es) => es,
        Err(e) => return Err(e),
    };
    let body = cv_markup(&entries);
    let page = fill_template(template, "CV", body.as_str());
    proof {
        reveal_strlit("</head>");
        reveal_strlit("<main>");
    }
    let page = replace_all(page.as_str(), "</head>", NOINDEX_HEAD);
    Ok(replace_all(page.as_str(), "<main>", CV_MAIN))
}


/// Sections of two runs of entries, one after the other.
proof fn lemma_sections_concat(a: Seq<CvEntryView>, b: Seq<CvEntryView>)
    ensures
        cv_sections(a + b) == cv_sections(a) + cv_sections(b),
    decreases b.len(),
{
    if b.len() == 0 {
        assert(a + b =~= a);
        assert(cv_sections(a) + Seq::<char>::empty() =~= cv_sections(a));
    } else {
        assert((a + b).drop_last() =~= a + b.drop_last());
        lemma_sections_concat(a, b.drop_last());
        assert(cv_sections(a + b) =~= cv_sections(a) + cv_sections(b));
    }
}

/// List items of two runs of strings, one after the other.
proof fn lemma_items_concat(a: Seq<Seq<char>>, b: Seq<Seq<char>>)
    ensures
        li_items(a + b) == li_items(a) + li_items(b),
    decreases b.len(),
{
    if b.len() == 0 {
        assert(a + b =~= a);
        assert(li_items(a) + Seq::<char>::empty() =~= li_items(a));
    } else {
        assert((a + b).drop_last() =~= a + b.drop_last());
        lemma_items_concat(a, b.drop_last());
        assert(li_items(a + b) =~= li_items(a) + li_items(b));
    }
}

/// The CV's sections are one per entry, in input order: the section of entry
/// `i` stands between those of the entries before it and those after it.
pub proof fn lemma_one_section_per_entry(es: Seq<CvEntryView>, i: int)
    requires
        0 <= i < es.len(),
    ensures
        cv_sections(es) == cv_sections(es.take(i)) + cv_section(es[i]) + cv_sections(es.skip(i + 1)),
{
    assert(es =~= es.take(i) + (seq![es[i]] + es.skip(i + 1)));
    lemma_sections_concat(es.take(i), seq![es[i]] + es.skip(i + 1));
    lemma_sections_concat(seq![es[i]], es.skip(i + 1));
    assert(seq![es[i]].drop_last() =~= Seq::<CvEntryView>::empty());
    assert(seq![es[i]].last() == es[i]);
    assert(cv_sections(Seq::<CvEntryView>::empty()) == Seq::<char>::empty());
    assert(Seq::<char>::empty() + cv_section(es[i]) =~= cv_section(es[i]));
    assert(cv_sections(seq![es[i]]) =~= cv_section(es[i]));
    assert(cv_sections(es) =~= cv_sections(es.take(i)) + cv_section(es[i]) + cv_sections(es.skip(i + 1)));
}

/// Every listed string appears verbatim as a list item, in order: item `k`
/// stands between the items before it and those after it.
pub proof fn lemma_every_item_listed(xs: Seq<Seq<char>>, k: int)
    requires
        0 <= k < xs.len(),
    ensures
        li_items(xs) == li_items(xs.take(k)) + ("<li>"@ + xs[k] + "</li>\n"@) + li_items(xs.skip(k + 1)),
{
    assert(xs =~= xs.take(k) + (seq![xs[k]] + xs.skip(k + 1)));
    lemma_items_concat(xs.take(k), seq![xs[k]] + xs.skip(k + 1));
    lemma_items_concat(seq![xs[k]], xs.skip(k + 1));
    assert(seq![xs[k]].drop_last() =~= Seq::<Seq<char>>::empty());
    assert(seq![xs[k]].last() == xs[k]);
    assert(li_items(Seq::<Seq<char>>::empty()) == Seq::<char>::empty());
    assert(Seq::<char>::empty() + "<li>"@ + xs[k] + "</li>\n"@ =~= "<li>"@ + xs[k] + "</li>\n"@);
    assert(li_items(seq![xs[k]]) =~= "<li>"@ + xs[k] + "</li>\n"@);
    assert(li_items(xs) =~= li_items(xs.take(k)) + ("<li>"@ + xs[k] + "</li>\n"@) + li_items(xs.skip(k + 1)));
}

} // verus!
