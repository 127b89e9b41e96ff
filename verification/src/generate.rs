//! Serializing a collected directory into a loadable program fragment: the
//! generated source reconstructs the same resource table when compiled.

use crate::strutil::push_char;
use path_slash::PathExt;
use vstd::prelude::*;

verus! {

/// What `mime_guess` answers for a path: a best-effort MIME type read off
/// the path's extension, `application/octet-stream` when nothing is
/// recognized. The guess depends on the path string alone.
pub uninterp spec fn mime_of(path: Seq<char>) -> Seq<char>;

/// Relies on `mime_guess::MimeGuess::from_path` and
/// `first_or_octet_stream`: the guess reads only the path's extension, so
/// the result is a function of the path string alone, and the fallback is
/// `application/octet-stream` when nothing is recognized.
#[verifier::external_body]
fn guess_mime(path: &str) -> (r: String)
    ensures
        r@ == mime_of(path@),
{
    mime_guess::MimeGuess::from_path(path).first_or_octet_stream().as_ref().to_string()
}

/// Relies on `path_slash::PathExt::to_slash`: it replaces the platform's
/// path separator with `/`, and on this platform the separator already is
/// `/`, so a path built from a string comes back unchanged.
#[verifier::external_body]
fn to_slash_key(rel_path: &str) -> (r: String)
    ensures
        r@ == rel_path@,
{
    match std::path::Path::new(rel_path).to_slash() {
        Option::Some(s) => s.to_string(),
        Option::None => String::new(),
    }
}

/// One file captured by the collector: its path relative to the collected
/// root (host separators), its bytes, and its modification time in seconds
/// since the epoch (zero when unknown).
pub struct CollectedEntry {
    pub rel_path: String,
    pub data: Vec<u8>,
    pub modified: u64,
}

/// The spec-level value of a collected file.
pub struct CollectedEntryView {
    pub rel_path: Seq<char>,
    pub data: Seq<u8>,
    pub modified: u64,
}

impl View for CollectedEntry {
    type V = CollectedEntryView;

    open spec fn view(&self) -> CollectedEntryView {
        CollectedEntryView { rel_path: self.rel_path@, data: self.data@, modified: self.modified }
    }
}

/// The decimal digit character for `d`.
pub open spec fn dec_digit(d: int) -> char {
    if d == 0 {
        '0'
    } else if d == 1 {
        '1'
    } else if d == 2 {
        '2'
    } else if d == 3 {
        '3'
    } else if d == 4 {
        '4'
    } else if d == 5 {
        '5'
    } else if d == 6 {
        '6'
    } else if d == 7 {
        '7'
    } else if d == 8 {
        '8'
    } else {
        '9'
    }
}

/// Decimal form of `n`, most significant digit first.
pub open spec fn dec_of(n: nat) -> Seq<char>
    decreases n,
{
    if n < 10 {
        seq![dec_digit(n as int)]
    } else {
        dec_of(n / 10).push(dec_digit((n % 10) as int))
    }
}

fn dec_digit_char(d: u64) -> (c: char)
    requires
        d < 10,
    ensures
        c == dec_digit(d as int),
{
    if d == 0 {
        '0'
    } else if d == 1 {
        '1'
    } else if d == 2 {
        '2'
    } else if d == 3 {
        '3'
    } else if d == 4 {
        '4'
    } else if d == 5 {
        '5'
    } else if d == 6 {
        '6'
    } else if d == 7 {
        '7'
    } else if d == 8 {
        '8'
    } else {
        '9'
    }
}

/// Appends the decimal form of `n` to `out`.
pub fn push_dec(out: &mut String, n: u64)
    ensures
        final(out)@ == old(out)@ + dec_of(n as nat),
    decreases n,
{
    if n >= 10 {
        push_dec(out, n / 10);
        push_char(out, dec_digit_char(n % 10));
        proof {
            assert(old(out)@ + dec_of((n / 10) as nat) + seq![dec_digit((n % 10) as int)]
                =~= old(out)@ + dec_of(n as nat));
        }
    } else {
        push_char(out, dec_digit_char(n));
        proof {
            assert(old(out)@.push(dec_digit(n as int)) =~= old(out)@ + dec_of(n as nat));
        }
    }
}

/// `s` as a Rust string-literal body: `"` and `\` get a backslash in front.
pub open spec fn escaped(s: Seq<char>) -> Seq<char>
    decreases s.len(),
{
    if s.len() == 0 {
        Seq::<char>::empty()
    } else {
        (if s[0] == '"' || s[0] == '\\' {
            seq!['\\', s[0]]
        } else {
            seq![s[0]]
        }) + escaped(s.drop_first())
    }
}

proof fn lemma_escaped_snoc(s: Seq<char>, c: char)
    ensures
        escaped(s.push(c)) == escaped(s) + (if c == '"' || c == '\\' {
            seq!['\\', c]
        } else {
            seq![c]
        }),
    decreases s.len(),
{
    let tail = if c == '"' || c == '\\' {
        seq!['\\', c]
    } else {
        seq![c]
    };
    if s.len() == 0 {
        assert(s.push(c)[0] == c);
        assert(s.push(c).drop_first() =~= Seq::<char>::empty());
        assert(escaped(Seq::<char>::empty()) == Seq::<char>::empty());
        assert(escaped(s.push(c)) =~= tail);
        assert(escaped(s) + tail =~= tail);
    } else {
        assert(s.push(c)[0] == s[0]);
        assert(s.push(c).drop_first() =~= s.drop_first().push(c));
        lemma_escaped_snoc(s.drop_first(), c);
        let head = if s[0] == '"' || s[0] == '\\' {
            seq!['\\', s[0]]
        } else {
            seq![s[0]]
        };
        assert(escaped(s.push(c)) == head + (escaped(s.drop_first()) + tail));
        assert(head + (escaped(s.drop_first()) + tail) =~= (head + escaped(s.drop_first()))
            + tail);
    }
}

/// Appends `s` with `"` and `\` backslash-escaped.
fn push_escaped(out: &mut String, s: &str)
    ensures
        final(out)@ == old(out)@ + escaped(s@),
{
    let n = s.unicode_len();
    let mut i: usize = 0;
    proof {
        assert(s@.take(0) =~= Seq::<char>::empty());
        assert(old(out)@ + escaped(s@.take(0)) =~= old(out)@);
    }
    while i < n
        invariant
            n == s@.len(),
            0 <= i <= n,
            out@ == old(out)@ + escaped(s@.take(i as int)),
        decreases n - i,
    {
        let c = s.get_char(i);
        proof {
            lemma_escaped_snoc(s@.take(i as int), c);
            assert(s@.take(i as int).push(c) =~= s@.take(i as int + 1));
        }
        if c == '"' || c == '\\' {
            push_char(out, '\\');
            push_char(out, c);
            proof {
                assert((old(out)@ + escaped(s@.take(i as int))).push('\\').push(c) =~= old(out)@
                    + escaped(s@.take(i as int + 1)));
            }
        } else {
            push_char(out, c);
            proof {
                assert((old(out)@ + escaped(s@.take(i as int))).push(c) =~= old(out)@ + escaped(
                    s@.take(i as int + 1),
                ));
            }
        }
        i += 1;
    }
    proof {
        assert(s@.take(n as int) =~= s@);
    }
}

/// The comma-separated decimal rendering of `data`.
pub open spec fn bytes_text(data: Seq<u8>) -> Seq<char>
    decreases data.len(),
{
    if data.len() == 0 {
        Seq::<char>::empty()
    } else if data.len() == 1 {
        dec_of(data[0] as nat)
    } else {
        dec_of(data[0] as nat) + ","@ + bytes_text(data.drop_first())
    }
}

proof fn lemma_bytes_text_snoc(data: Seq<u8>, b: u8)
    ensures
        data.len() == 0 ==> bytes_text(data.push(b)) == dec_of(b as nat),
        data.len() > 0 ==> bytes_text(data.push(b)) == bytes_text(data) + ","@ + dec_of(b as nat),
    decreases data.len(),
{
    if data.len() == 0 {
        assert(data.push(b)[0] == b);
        assert(bytes_text(data.push(b)) == dec_of(b as nat));
    } else {
        assert(data.push(b)[0] == data[0]);
        assert(data.push(b).drop_first() =~= data.drop_first().push(b));
        lemma_bytes_text_snoc(data.drop_first(), b);
        if data.len() == 1 {
            assert(data.drop_first().len() == 0);
            assert(bytes_text(data.push(b)) == dec_of(data[0] as nat) + ","@ + dec_of(b as nat));
            assert(bytes_text(data) == dec_of(data[0] as nat));
        } else {
            assert(bytes_text(data.push(b)) == dec_of(data[0] as nat) + ","@ + (bytes_text(
                data.drop_first(),
            ) + ","@ + dec_of(b as nat)));
            assert(dec_of(data[0] as nat) + ","@ + (bytes_text(data.drop_first()) + ","@ + dec_of(
                b as nat,
            )) =~= (dec_of(data[0] as nat) + ","@ + bytes_text(data.drop_first())) + ","@ + dec_of(
                b as nat,
            ));
        }
    }
}

/// Appends the comma-separated decimal bytes of `data`.
fn push_bytes_text(out: &mut String, data: &Vec<u8>)
    ensures
        final(out)@ == old(out)@ + bytes_text(data@),
{
    let mut i: usize = 0;
    proof {
        assert(data@.take(0) =~= Seq::<u8>::empty());
        assert(old(out)@ + bytes_text(data@.take(0)) =~= old(out)@);
    }
    while i < data.len()
        invariant
            0 <= i <= data@.len(),
            out@ == old(out)@ + bytes_text(data@.take(i as int)),
        decreases data@.len() - i,
    {
        let ghost prev = out@;
        proof {
            lemma_bytes_text_snoc(data@.take(i as int), data@[i as int]);
            assert(data@.take(i as int).push(data@[i as int]) =~= data@.take(i as int + 1));
        }
        if i > 0 {
            push_char(out, ',');
            push_dec(out, data[i] as u64);
            proof {
                reveal_strlit(",");
                assert(","@ =~= seq![',']);
                assert(prev.push(',') + dec_of(data@[i as int] as nat) =~= old(out)@ + bytes_text(
                    data@.take(i as int + 1),
                ));
            }
        } else {
            push_dec(out, data[i] as u64);
            proof {
                assert(prev + dec_of(data@[i as int] as nat) =~= old(out)@ + bytes_text(
                    data@.take(i as int + 1),
                ));
            }
        }
        i += 1;
    }
    proof {
        assert(data@.take(data@.len() as int) =~= data@);
    }
}

/// The generated function's opening line.
pub open spec fn header_text(fn_name: Seq<char>) -> Seq<char> {
    "pub fn "@ + fn_name + "() -> ::static_serve::ResourceTable {\n"@
}

/// The import the generated code needs.
pub open spec fn uses_text() -> Seq<char> {
    "use ::static_serve::new_resource as n;\n"@
}

/// The line that opens the generated table variable.
pub open spec fn variable_header_text(var: Seq<char>) -> Seq<char> {
    "let mut "@ + var + " = ::static_serve::ResourceTable::new();\n"@
}

/// The line that returns the generated table variable.
pub open spec fn variable_return_text(var: Seq<char>) -> Seq<char> {
    var + "\n"@
}

/// The generated function's closing line.
pub open spec fn end_text() -> Seq<char> {
    "}\n"@
}

/// The insert statement generated for one collected file: key, bytes,
/// timestamp, and the guessed MIME type.
pub open spec fn insert_line_text(var: Seq<char>, e: CollectedEntryView) -> Seq<char> {
    var + ".insert(\""@ + escaped(e.rel_path) + "\".to_string(),n(vec!["@ + bytes_text(e.data)
        + "],"@ + dec_of(e.modified as nat) + ",\""@ + escaped(mime_of(e.rel_path))
        + "\".to_string()));\n"@
}

/// The insert statements generated for a collection, in collection order.
pub open spec fn inserts_text(var: Seq<char>, entries: Seq<CollectedEntryView>) -> Seq<char>
    decreases entries.len(),
{
    if entries.len() == 0 {
        Seq::<char>::empty()
    } else {
        inserts_text(var, entries.drop_last()) + insert_line_text(var, entries.last())
    }
}

/// The whole generated source of a constructor function named `fn_name`.
pub open spec fn resources_code_text(fn_name: Seq<char>, entries: Seq<CollectedEntryView>) -> Seq<
    char,
> {
    header_text(fn_name) + uses_text() + variable_header_text("r"@) + inserts_text("r"@, entries)
        + variable_return_text("r"@) + end_text()
}

/// The whole generated block form: the same table built inside a bare
/// block, for inclusion inside an expression.
pub open spec fn resources_mapping_text(entries: Seq<CollectedEntryView>) -> Seq<char> {
    "{\n"@ + uses_text() + variable_header_text("r"@) + inserts_text("r"@, entries)
        + variable_return_text("r"@) + "}\n"@
}

/// Appends the generated function's opening line.
pub fn generate_function_header(out: &mut String, fn_name: &str)
    ensures
        final(out)@ == old(out)@ + header_text(fn_name@),
{
    out.append("pub fn ");
    out.append(fn_name);
    out.append("() -> ::static_serve::ResourceTable {\n");
    proof {
        assert(out@ =~= old(out)@ + header_text(fn_name@));
    }
}

/// Appends the generated function's closing line.
pub fn generate_function_end(out: &mut String)
    ensures
        final(out)@ == old(out)@ + end_text(),
{
    out.append("}\n");
}

/// Appends the import the generated code needs.
pub fn generate_uses(out: &mut String)
    ensures
        final(out)@ == old(out)@ + uses_text(),
{
    out.append("use ::static_serve::new_resource as n;\n");
}

/// Appends the line that opens the generated table variable.
pub fn generate_variable_header(out: &mut String, variable_name: &str)
    ensures
        final(out)@ == old(out)@ + variable_header_text(variable_name@),
{
    out.append("let mut ");
    out.append(variable_name);
    out.append(" = ::static_serve::ResourceTable::new();\n");
    proof {
        assert(out@ =~= old(out)@ + variable_header_text(variable_name@));
    }
}

/// Appends the line that returns the generated table variable.
pub fn generate_variable_return(out: &mut String, variable_name: &str)
    ensures
        final(out)@ == old(out)@ + variable_return_text(variable_name@),
{
    out.append(variable_name);
    out.append("\n");
    proof {
        assert(out@ =~= old(out)@ + variable_return_text(variable_name@));
    }
}

/// Appends one insert statement per collected file, in collection order.
pub fn generate_resource_inserts(
    out: &mut String,
    variable_name: &str,
    resources: &Vec<CollectedEntry>,
)
    ensures
        final(out)@ == old(out)@ + inserts_text(
            variable_name@,
            resources@.map_values(|e: CollectedEntry| e@),
        ),
{
    let ghost entries = resources@.map_values(|e: CollectedEntry| e@);
    let mut i: usize = 0;
    proof {
        assert(old(out)@ + inserts_text(variable_name@, entries.take(0)) =~= old(out)@);
    }
    while i < resources.len()
        invariant
            entries == resources@.map_values(|e: CollectedEntry| e@),
            0 <= i <= resources@.len(),
            out@ == old(out)@ + inserts_text(variable_name@, entries.take(i as int)),
        decreases resources@.len() - i,
    {
        let ghost prev = out@;
        let key = to_slash_key(resources[i].rel_path.as_str());
        let mime = guess_mime(resources[i].rel_path.as_str());
        out.append(variable_name);
        out.append(".insert(\"");
        push_escaped(out, key.as_str());
        out.append("\".to_string(),n(vec![");
        push_bytes_text(out, &resources[i].data);
        out.append("],");
        push_dec(out, resources[i].modified);
        out.append(",\"");
        push_escaped(out, mime.as_str());
        out.append("\".to_string()));\n");
        proof {
            assert(entries.take(i as int + 1).drop_last() =~= entries.take(i as int));
            assert(entries.take(i as int + 1).last() == entries[i as int]);
            assert(entries[i as int] == resources@[i as int]@);
            assert(out@ =~= prev + insert_line_text(variable_name@, entries[i as int]));
        }
        i += 1;
    }
    proof {
        assert(entries.take(entries.len() as int) =~= entries);
    }
}

/// The generated source of a constructor function named `fn_name` that
/// rebuilds the collected table.
pub fn generate_resources_code(fn_name: &str, resources: &Vec<CollectedEntry>) -> (r: String)
    ensures
        r@ == resources_code_text(fn_name@, resources@.map_values(|e: CollectedEntry| e@)),
{
    let mut out = String::new();
    generate_function_header(&mut out, fn_name);
    generate_uses(&mut out);
    generate_variable_header(&mut out, "r");
    generate_resource_inserts(&mut out, "r", resources);
    generate_variable_return(&mut out, "r");
    generate_function_end(&mut out);
    proof {
        assert(out@ =~= resources_code_text(
            fn_name@,
            resources@.map_values(|e: CollectedEntry| e@),
        ));
    }
    out
}

/// The generated block form of the collected table, for inclusion inside an
/// expression.
pub fn generate_resources_mapping_code(resources: &Vec<CollectedEntry>) -> (r: String)
    ensures
        r@ == resources_mapping_text(resources@.map_values(|e: CollectedEntry| e@)),
{
    let mut out = String::new();
    out.append("{\n");
    generate_uses(&mut out);
    generate_variable_header(&mut out, "r");
    generate_resource_inserts(&mut out, "r", resources);
    generate_variable_return(&mut out, "r");
    out.append("}\n");
    proof {
        assert(out@ =~= resources_mapping_text(resources@.map_values(|e: CollectedEntry| e@)));
    }
    out
}

/// Law: code generation is deterministic — two collections that captured
/// the same relative paths, bytes and timestamps generate the identical
/// source, and each entry's MIME type is a function of its path alone.
pub proof fn lemma_generate_deterministic(
    fn_name1: Seq<char>,
    fn_name2: Seq<char>,
    e1: Seq<CollectedEntryView>,
    e2: Seq<CollectedEntryView>,
)
    requires
        fn_name1 == fn_name2,
        e1 == e2,
    ensures
        resources_code_text(fn_name1, e1) == resources_code_text(fn_name2, e2),
{
}

} // verus!
