use vstd::prelude::*;
use vstd::string::*;

use crate::text::{
    ascii_tokens, clean_run, is_sep, lemma_runs_append, lemma_runs_clean, lemma_runs_single,
    lemma_runs_single_closed,
    nonempty_lines, run_scan, runs, split_ascii_whitespace, split_runs, str_eq, views,
};

verus! {

/// One exported symbol: a function, or a global variable (`is_data`).
#[derive(Debug, Clone, PartialEq, Eq)]
pub struct ExportRecord {
    pub symbol: String,
    pub is_data: bool,
}

impl View for ExportRecord {
    type V = (Seq<char>, bool);

    open spec fn view(&self) -> (Seq<char>, bool) {
        (self.symbol@, self.is_data)
    }
}

/// The views of a sequence of records.
pub open spec fn records_view(v: Seq<ExportRecord>) -> Seq<(Seq<char>, bool)> {
    v.map_values(|r: ExportRecord| r@)
}

/// The record that one line of a symbol listing holds, if any: a line whose
/// first token is `function` or `data` names its symbol in the second token.
pub open spec fn record_of_line(line: Seq<char>) -> Option<(Seq<char>, bool)> {
    let t = ascii_tokens(line);
    if t.len() >= 2 && (t[0] == "function"@ || t[0] == "data"@) {
        Some((t[1], t[0] == "data"@))
    } else {
        None
    }
}

/// The records of a sequence of lines, in order.
pub open spec fn records_of_lines(lines: Seq<Seq<char>>) -> Seq<(Seq<char>, bool)>
    decreases lines.len(),
{
    if lines.len() == 0 {
        Seq::empty()
    } else {
        let r = records_of_lines(lines.drop_last());
        match record_of_line(lines.last()) {
            Some(x) => r.push(x),
            None => r,
        }
    }
}

/// The records of a symbol listing.
pub open spec fn parsed(text: Seq<char>) -> Seq<(Seq<char>, bool)> {
    records_of_lines(nonempty_lines(text))
}

/// The definition file line of one record.
pub open spec fn export_line(r: (Seq<char>, bool)) -> Seq<char> {
    if r.1 {
        r.0 + " DATA\n"@
    } else {
        r.0 + "\n"@
    }
}

/// The definition file lines of a sequence of records.
pub open spec fn export_lines(rs: Seq<(Seq<char>, bool)>) -> Seq<char>
    decreases rs.len(),
{
    if rs.len() == 0 {
        Seq::empty()
    } else {
        export_lines(rs.drop_last()) + export_line(rs.last())
    }
}

/// The header of a definition file for the library `name`.
pub open spec fn def_header(name: Seq<char>) -> Seq<char> {
    "LIBRARY \""@ + name + "\"\nEXPORTS\n"@
}

/// The module definition text for the library `name` and its exports.
pub open spec fn serialized(name: Seq<char>, rs: Seq<(Seq<char>, bool)>) -> Seq<char> {
    def_header(name) + export_lines(rs)
}

/// Reads the export records of a symbol listing, in the order of its lines.
///
/// A line is a record when its first whitespace-delimited token is
/// `function` or `data`; the second token is the symbol. Other lines are
/// skipped.
pub fn parse(text: &str) -> (r: Vec<ExportRecord>)
    ensures
        records_view(r@) == parsed(text@),
{
    let lines = split_runs(text, true);
    let ghost ls = nonempty_lines(text@);
    let mut records: Vec<ExportRecord> = Vec::with_capacity(text.len() / 32);
    let mut i: usize = 0;
    while i < lines.len()
        invariant
            views(lines@) == ls,
            i <= lines.len(),
            records_view(records@) == records_of_lines(ls.take(i as int)),
        decreases lines.len() - i,
    {
        proof {
            assert(ls.take(i + 1).drop_last() =~= ls.take(i as int));
            assert(ls[i as int] == lines@[i as int]@);
        }
        let tokens = split_ascii_whitespace(lines[i].as_str());
        if tokens.len() >= 2 {
            let is_data = str_eq(tokens[0].as_str(), "data");
            if is_data || str_eq(tokens[0].as_str(), "function") {
                let rec = ExportRecord { symbol: tokens[1].clone(), is_data };
                proof {
                    assert(tokens@[0]@ == views(tokens@)[0]);
                    assert(tokens@[1]@ == views(tokens@)[1]);
                    assert(records_view(records@.push(rec)) =~= records_view(records@).push(rec@));
                }
                records.push(rec);
            }
        }
        i = i + 1;
    }
    proof {
        assert(ls.take(lines@.len() as int) =~= ls);
    }
    records
}

/// Writes the module definition text for the library `library`: a `LIBRARY`
/// line, an `EXPORTS` line, then one line per export in order, with ` DATA`
/// after the symbol of a data export.
pub fn serialize(library: &str, exports: &[ExportRecord]) -> (r: String)
    ensures
        r@ == serialized(library@, records_view(exports@)),
{
    let ghost rs = records_view(exports@);
    let mut out = String::from_str("LIBRARY \"");
    out.append(library);
    out.append("\"\nEXPORTS\n");
    proof {
        assert(out@ == def_header(library@) + export_lines(rs.take(0)));
    }
    let mut i: usize = 0;
    while i < exports.len()
        invariant
            rs == records_view(exports@),
            i <= exports.len(),
            out@ == def_header(library@) + export_lines(rs.take(i as int)),
        decreases exports.len() - i,
    {
        let rec = &exports[i];
        proof {
            assert(rs.take(i + 1).drop_last() =~= rs.take(i as int));
            assert(rs[i as int] == rec@);
        }
        out.append(rec.symbol.as_str());
        if rec.is_data {
            out.append(" DATA\n");
        } else {
            out.append("\n");
        }
        proof {
            assert(out@ =~= def_header(library@) + export_lines(rs.take(i + 1)));
        }
        i = i + 1;
    }
    proof {
        assert(rs.take(exports@.len() as int) =~= rs);
    }
    out
}

/// The records of concatenated line sequences are concatenated.
pub proof fn lemma_records_append(l1: Seq<Seq<char>>, l2: Seq<Seq<char>>)
    ensures
        records_of_lines(l1 + l2) == records_of_lines(l1) + records_of_lines(l2),
    decreases l2.len(),
{
    if l2.len() == 0 {
        assert(l1 + l2 =~= l1);
        assert(records_of_lines(l1) + records_of_lines(l2) =~= records_of_lines(l1));
    } else {
        lemma_records_append(l1, l2.drop_last());
        assert((l1 + l2).drop_last() =~= l1 + l2.drop_last());
        assert((l1 + l2).last() == l2.last());
        let r1 = records_of_lines(l1);
        let r2 = records_of_lines(l2.drop_last());
        if let Some(x) = record_of_line(l2.last()) {
            assert((r1 + r2).push(x) =~= r1 + r2.push(x));
        }
    }
}

/// The first line of a definition file.
pub open spec fn library_line(name: Seq<char>) -> Seq<char> {
    "LIBRARY \""@ + name + "\""@
}

/// A line that starts with the token `LIBRARY` holds no record.
proof fn lemma_library_line_no_record(name: Seq<char>)
    ensures
        record_of_line(library_line(name)) is None,
{
    reveal_strlit("LIBRARY \"");
    reveal_strlit("LIBRARY");
    reveal_strlit("\"");
    reveal_strlit("function");
    reveal_strlit("data");
    let word = "LIBRARY"@;
    let rest = "\""@ + name + "\""@;
    assert("LIBRARY \""@ =~= word.push(' ') + "\""@);
    assert(library_line(name) =~= word.push(' ') + rest);
    assert forall|i: int| 0 <= i < word.len() implies !is_sep(#[trigger] word[i], false) by {}
    lemma_runs_single_closed(word, ' ', false);
    lemma_runs_append(word.push(' '), rest, false);
    let t = ascii_tokens(library_line(name));
    assert(t[0] == word);
    assert(word.len() != "function"@.len());
    assert(word.len() != "data"@.len());
}

/// The header of a definition file, for a name without line breaks, is two
/// lines and holds no record.
pub proof fn lemma_header_no_records(name: Seq<char>)
    requires
        !name.contains('\n'),
    ensures
        parsed(def_header(name)) == Seq::<(Seq<char>, bool)>::empty(),
        run_scan(def_header(name), true).1.len() == 0,
        nonempty_lines(def_header(name)) == seq![library_line(name), "EXPORTS"@],
{
    reveal_strlit("LIBRARY \"");
    reveal_strlit("\"");
    reveal_strlit("\"\nEXPORTS\n");
    reveal_strlit("EXPORTS");
    let first = library_line(name);
    let second = "EXPORTS"@;
    assert(def_header(name) =~= first.push('\n') + second.push('\n'));
    assert forall|i: int| 0 <= i < first.len() implies !is_sep(#[trigger] first[i], true) by {
        if 9 <= i < 9 + name.len() {
            assert(first[i] == name[i - 9]);
        }
    }
    assert forall|i: int| 0 <= i < second.len() implies !is_sep(#[trigger] second[i], true) by {}
    assert forall|i: int| 0 <= i < second.len() implies !is_sep(#[trigger] second[i], false) by {}
    lemma_runs_single_closed(first, '\n', true);
    lemma_runs_single_closed(second, '\n', true);
    lemma_runs_append(first.push('\n'), second.push('\n'), true);
    lemma_run_scan_append_closed(first.push('\n'), second.push('\n'));
    lemma_runs_single(second, false);
    lemma_library_line_no_record(name);
    let ls = nonempty_lines(def_header(name));
    assert(ls =~= seq![first, second]);
    assert(ls.drop_last() =~= seq![first]);
    assert(seq![first].drop_last() =~= Seq::<Seq<char>>::empty());
    assert(record_of_line(second) is None);
    assert(seq![first].last() == first);
    assert(record_of_line(first) is None);
    assert(records_of_lines(seq![first].drop_last()) =~= Seq::<(Seq<char>, bool)>::empty());
    assert(records_of_lines(seq![first]) == Seq::<(Seq<char>, bool)>::empty());
    assert(records_of_lines(ls) == records_of_lines(seq![first]));
}

/// Two texts that each close their runs close them together too.
proof fn lemma_run_scan_append_closed(a: Seq<char>, b: Seq<char>)
    requires
        run_scan(a, true).1.len() == 0,
        run_scan(b, true).1.len() == 0,
    ensures
        run_scan(a + b, true).1.len() == 0,
{
    crate::text::lemma_run_scan_append(a, b, true);
}

/// Parsing a symbol listing, writing its records as a definition file, and
/// parsing that file gives the records again, for a library name without
/// line breaks and a listing that holds no record.
///
/// A listing with a record is left out: the definition file writes a
/// function as a line of its bare symbol, which the listing format does not
/// read as a record.
pub proof fn lemma_parse_serialize_parse(name: Seq<char>, text: Seq<char>)
    requires
        !name.contains('\n'),
        parsed(text).len() == 0,
    ensures
        parsed(serialized(name, parsed(text))) == parsed(text),
{
    lemma_header_no_records(name);
    assert(export_lines(parsed(text)) == Seq::<char>::empty());
    assert(serialized(name, parsed(text)) =~= def_header(name));
    assert(parsed(text) =~= Seq::<(Seq<char>, bool)>::empty());
}

/// A symbol as the listing format can hold it: one non-empty token.
pub open spec fn clean_symbol(sym: Seq<char>) -> bool {
    clean_run(sym, false)
}

/// An export line of a definition file without its line break.
pub open spec fn listing_line(r: (Seq<char>, bool)) -> Seq<char> {
    if r.1 {
        r.0 + " DATA"@
    } else {
        r.0
    }
}

/// The listing lines of a sequence of records.
pub open spec fn listing_lines(rs: Seq<(Seq<char>, bool)>) -> Seq<Seq<char>> {
    rs.map_values(|r: (Seq<char>, bool)| listing_line(r))
}

/// What the listing format reads in one export line of a definition file:
/// a data export of the symbol `function` or `data` reads as a record of
/// the symbol `DATA`; any other export line reads as no record.
pub proof fn lemma_export_line_record(r: (Seq<char>, bool))
    requires
        clean_symbol(r.0),
    ensures
        record_of_line(listing_line(r)) == (if r.1 && (r.0 == "function"@ || r.0 == "data"@) {
            Some(("DATA"@, r.0 == "data"@))
        } else {
            None
        }),
{
    reveal_strlit(" DATA");
    reveal_strlit("DATA");
    assert forall|i: int| 0 <= i < r.0.len() implies !is_sep(#[trigger] r.0[i], false) by {}
    if r.1 {
        let word = "DATA"@;
        assert(" DATA"@ =~= seq![' '] + word);
        assert(listing_line(r) =~= r.0.push(' ') + word);
        lemma_runs_single_closed(r.0, ' ', false);
        lemma_runs_append(r.0.push(' '), word, false);
        assert forall|i: int| 0 <= i < word.len() implies !is_sep(#[trigger] word[i], false) by {}
        lemma_runs_single(word, false);
        assert(ascii_tokens(listing_line(r)) =~= seq![r.0, word]);
    } else {
        lemma_runs_single(r.0, false);
    }
}

/// The lines of the export section of a definition file.
proof fn lemma_export_lines(rs: Seq<(Seq<char>, bool)>)
    requires
        forall|i: int| 0 <= i < rs.len() ==> clean_symbol(#[trigger] rs[i].0),
    ensures
        nonempty_lines(export_lines(rs)) == listing_lines(rs),
        run_scan(export_lines(rs), true).1.len() == 0,
    decreases rs.len(),
{
    reveal_strlit(" DATA\n");
    reveal_strlit(" DATA");
    reveal_strlit("\n");
    if rs.len() == 0 {
        assert(listing_lines(rs) =~= Seq::<Seq<char>>::empty());
    } else {
        let last = rs.last();
        assert(rs.drop_last().len() == rs.len() - 1);
        assert forall|i: int| 0 <= i < rs.drop_last().len() implies clean_symbol(
            #[trigger] rs.drop_last()[i].0,
        ) by {
            assert(rs.drop_last()[i] == rs[i]);
        }
        lemma_export_lines(rs.drop_last());
        assert(clean_symbol(rs[rs.len() - 1].0));
        let ll = listing_line(last);
        assert(export_line(last) =~= ll.push('\n'));
        assert forall|i: int| 0 <= i < ll.len() implies !is_sep(#[trigger] ll[i], true) by {
            if i < last.0.len() {
                assert(ll[i] == last.0[i]);
            }
        }
        lemma_runs_single_closed(ll, '\n', true);
        lemma_runs_append(export_lines(rs.drop_last()), ll.push('\n'), true);
        lemma_run_scan_append_closed(export_lines(rs.drop_last()), ll.push('\n'));
        assert(listing_lines(rs) =~= listing_lines(rs.drop_last()) + seq![ll]);
    }
}

/// Parsing a definition file, for a library name without line breaks and
/// symbols that are single tokens, reads its export lines as listing lines.
pub proof fn lemma_parse_definition(name: Seq<char>, rs: Seq<(Seq<char>, bool)>)
    requires
        !name.contains('\n'),
        forall|i: int| 0 <= i < rs.len() ==> clean_symbol(#[trigger] rs[i].0),
    ensures
        parsed(serialized(name, rs)) == records_of_lines(listing_lines(rs)),
{
    lemma_header_no_records(name);
    lemma_export_lines(rs);
    lemma_runs_append(def_header(name), export_lines(rs), true);
    lemma_records_append(nonempty_lines(def_header(name)), listing_lines(rs));
    assert(records_of_lines(listing_lines(rs)) =~= Seq::<(Seq<char>, bool)>::empty()
        + records_of_lines(listing_lines(rs)));
}

/// Every record that parsing yields has a single-token symbol.
pub proof fn lemma_parsed_clean(lines: Seq<Seq<char>>)
    ensures
        forall|i: int|
            0 <= i < records_of_lines(lines).len() ==> clean_symbol(
                #[trigger] records_of_lines(lines)[i].0,
            ),
    decreases lines.len(),
{
    if lines.len() > 0 {
        lemma_parsed_clean(lines.drop_last());
        let r = records_of_lines(lines.drop_last());
        if let Some(x) = record_of_line(lines.last()) {
            let t = ascii_tokens(lines.last());
            lemma_runs_clean(lines.last(), false);
            assert(t[1] == x.0);
            assert(clean_symbol(t[1]));
            assert forall|i: int| 0 <= i < r.push(x).len() implies clean_symbol(
                #[trigger] r.push(x)[i].0,
            ) by {
                if i < r.len() {
                    assert(r.push(x)[i] == r[i]);
                }
            }
        }
    }
}

/// Reading back export lines yields only `DATA` records, and fewer records
/// than there are exports when one of them is the symbol `DATA`.
proof fn lemma_read_back_shape(rs: Seq<(Seq<char>, bool)>)
    requires
        forall|i: int| 0 <= i < rs.len() ==> clean_symbol(#[trigger] rs[i].0),
    ensures
        forall|j: int|
            0 <= j < records_of_lines(listing_lines(rs)).len() ==> (#[trigger] records_of_lines(
                listing_lines(rs),
            )[j]).0 == "DATA"@,
        records_of_lines(listing_lines(rs)).len() <= rs.len(),
        (forall|i: int| 0 <= i < rs.len() ==> (#[trigger] rs[i]).0 != "DATA"@) || records_of_lines(
            listing_lines(rs),
        ).len() < rs.len(),
    decreases rs.len(),
{
    if rs.len() > 0 {
        let front = rs.drop_last();
        assert forall|i: int| 0 <= i < front.len() implies clean_symbol(#[trigger] front[i].0) by {
            assert(front[i] == rs[i]);
        }
        lemma_read_back_shape(front);
        let last = rs.last();
        assert(clean_symbol(rs[rs.len() - 1].0));
        lemma_export_line_record(last);
        assert(listing_lines(rs).drop_last() =~= listing_lines(front));
        assert(listing_lines(rs).last() == listing_line(last));
        reveal_strlit("DATA");
        reveal_strlit("data");
        reveal_strlit("function");
        assert(last.0 == "DATA"@ ==> last.0 != "data"@ && last.0 != "function"@) by {
            if last.0 == "DATA"@ {
                assert(last.0[0] != "data"@[0]);
                assert(last.0.len() != "function"@.len());
            }
        }
        let out = records_of_lines(listing_lines(front));
        if let Some(x) = record_of_line(listing_line(last)) {
            assert forall|j: int| 0 <= j < out.push(x).len() implies (#[trigger] out.push(x)[j]).0
                == "DATA"@ by {
                if j < out.len() {
                    assert(out.push(x)[j] == out[j]);
                }
            }
        }
        if !(forall|i: int| 0 <= i < rs.len() ==> (#[trigger] rs[i]).0 != "DATA"@) {
            let i = choose|i: int| 0 <= i < rs.len() && (#[trigger] rs[i]).0 == "DATA"@;
            if i < front.len() {
                assert(front[i] == rs[i]);
            }
        } else {
            assert(rs[rs.len() - 1] == last);
        }
    }
}

/// Where a listing holds a record, parsing it, writing the records as a
/// definition file and parsing that file does not give the records again
/// (for a library name without line breaks).
pub proof fn lemma_parse_serialize_parse_differs(name: Seq<char>, text: Seq<char>)
    requires
        !name.contains('\n'),
        parsed(text).len() > 0,
    ensures
        parsed(serialized(name, parsed(text))) != parsed(text),
{
    let rs = parsed(text);
    lemma_parsed_clean(nonempty_lines(text));
    lemma_parse_definition(name, rs);
    lemma_read_back_shape(rs);
    let out = records_of_lines(listing_lines(rs));
    if out == rs {
        assert(out[0].0 == "DATA"@);
        assert(rs[0].0 == "DATA"@);
        assert(!(forall|i: int| 0 <= i < rs.len() ==> (#[trigger] rs[i]).0 != "DATA"@));
    }
}

/// A definition file for a library name without line breaks and records
/// whose symbols are single tokens has, after its `LIBRARY` and `EXPORTS`
/// lines, one line per record in order: the symbol, with ` DATA` after it
/// exactly for a data record.
pub proof fn lemma_definition_lines(name: Seq<char>, rs: Seq<(Seq<char>, bool)>)
    requires
        !name.contains('\n'),
        forall|i: int| 0 <= i < rs.len() ==> clean_symbol(#[trigger] rs[i].0),
    ensures
        nonempty_lines(serialized(name, rs)) == seq![library_line(name), "EXPORTS"@] + listing_lines(
            rs,
        ),
        listing_lines(rs).len() == rs.len(),
        forall|i: int|
            0 <= i < rs.len() ==> #[trigger] listing_lines(rs)[i] == (if rs[i].1 {
                rs[i].0 + " DATA"@
            } else {
                rs[i].0
            }),
{
    lemma_header_no_records(name);
    lemma_export_lines(rs);
    lemma_runs_append(def_header(name), export_lines(rs), true);
}

} // verus!
