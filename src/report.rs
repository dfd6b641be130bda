//! The lines that the front end prints: one per register enumerated, one
//! per identifier or name looked up. A register that the catalog does not
//! know is marked ` none`, never left out.
use vstd::prelude::*;

use crate::arm::{reg_size, size_bits};
use crate::catalog::{Catalog, CatalogEntry, entries_with_id, entries_named};
use crate::format::{decimal_digits, format_value, hex_digits, push_decimal, push_hex, value_hex};

verus! {

/// Which decorations a register line carries.
#[derive(Clone, Copy, Debug, PartialEq, Eq, Structural)]
pub struct DisplayOptions {
    /// The storage width in bits, read from the identifier.
    pub size: bool,
    /// The register's value.
    pub value: bool,
    /// The names of the catalog entries with this identifier.
    pub names: bool,
    /// The identifier in hexadecimal rather than in decimal.
    pub hex: bool,
}

/// The marker of a register that no catalog entry matches.
pub open spec fn absent_marker() -> Seq<char> {
    seq![' ', 'n', 'o', 'n', 'e']
}

/// Each name, after a space, in order.
pub open spec fn names_text(matched: Seq<CatalogEntry>) -> Seq<char>
    decreases matched.len(),
{
    if matched.len() == 0 {
        seq![]
    } else {
        names_text(matched.drop_last()) + seq![' '] + matched.last().name@
    }
}

/// Each identifier in hexadecimal, after a space, in order.
pub open spec fn ids_text(matched: Seq<CatalogEntry>) -> Seq<char>
    decreases matched.len(),
{
    if matched.len() == 0 {
        seq![]
    } else {
        ids_text(matched.drop_last()) + seq![' ', '0', 'x'] + hex_digits(matched.last().id as nat)
    }
}

/// The names of the matching entries, or the absence marker.
pub open spec fn names_or_none(matched: Seq<CatalogEntry>) -> Seq<char> {
    if matched.len() == 0 {
        absent_marker()
    } else {
        names_text(matched)
    }
}

/// The identifiers of the matching entries, or the absence marker.
pub open spec fn ids_or_none(matched: Seq<CatalogEntry>) -> Seq<char> {
    if matched.len() == 0 {
        absent_marker()
    } else {
        ids_text(matched)
    }
}

/// An identifier in hexadecimal, after `0x`, or in decimal.
pub open spec fn id_text(reg_id: u64, hex: bool) -> Seq<char> {
    if hex {
        seq!['0', 'x'] + hex_digits(reg_id as nat)
    } else {
        decimal_digits(reg_id as nat)
    }
}

/// The line of an enumerated register: its identifier, then as asked its
/// width in bits, its value, and the names that match it.
pub open spec fn register_line(
    reg_id: u64,
    value: Seq<u8>,
    matched: Seq<CatalogEntry>,
    options: DisplayOptions,
) -> Seq<char> {
    id_text(reg_id, options.hex) + (if options.size {
        seq![' '] + decimal_digits(size_bits(reg_id))
    } else {
        seq![]
    }) + (if options.value {
        seq![' '] + value_hex(value)
    } else {
        seq![]
    }) + (if options.names {
        names_or_none(matched)
    } else {
        seq![]
    })
}

/// The line of an identifier looked up: `id: <decimal> =>` and the names.
pub open spec fn id_line(reg_id: u64, matched: Seq<CatalogEntry>) -> Seq<char> {
    seq!['i', 'd', ':', ' '] + decimal_digits(reg_id as nat) + seq![' ', '=', '>'] + names_or_none(
        matched,
    )
}

/// The line of a name looked up: `register: <name> =>` and the identifiers.
pub open spec fn name_line(name: Seq<char>, matched: Seq<CatalogEntry>) -> Seq<char> {
    seq!['r', 'e', 'g', 'i', 's', 't', 'e', 'r', ':', ' '] + name + seq![' ', '=', '>']
        + ids_or_none(matched)
}

/// The entries behind a list of references.
pub open spec fn entries_of(found: Seq<&CatalogEntry>) -> Seq<CatalogEntry> {
    found.map_values(|e: &CatalogEntry| *e)
}

fn push_names(out: &mut String, found: &Vec<&CatalogEntry>)
    ensures
        final(out)@ == old(out)@ + names_or_none(entries_of(found@)),
{
    proof {
        reveal_strlit(" none");
        reveal_strlit(" ");
    }
    if found.len() == 0 {
        out.append(" none");
        return;
    }
    let ghost start = out@;
    for i in 0..found.len()
        invariant
            out@ == start + names_text(entries_of(found@.take(i as int))),
    {
        proof {
            reveal_strlit(" ");
        }
        out.append(" ");
        out.append(found[i].name.as_str());
        assert(entries_of(found@.take(i + 1)).drop_last() =~= entries_of(found@.take(i as int)));
        assert(out@ =~= start + names_text(entries_of(found@.take(i + 1))));
    }
    assert(found@.take(found.len() as int) =~= found@);
}

fn push_ids(out: &mut String, found: &Vec<&CatalogEntry>)
    ensures
        final(out)@ == old(out)@ + ids_or_none(entries_of(found@)),
{
    proof {
        reveal_strlit(" none");
        reveal_strlit(" 0x");
    }
    if found.len() == 0 {
        out.append(" none");
        return;
    }
    let ghost start = out@;
    for i in 0..found.len()
        invariant
            out@ == start + ids_text(entries_of(found@.take(i as int))),
    {
        proof {
            reveal_strlit(" 0x");
        }
        out.append(" 0x");
        push_hex(out, found[i].id);
        assert(entries_of(found@.take(i + 1)).drop_last() =~= entries_of(found@.take(i as int)));
        assert(out@ =~= start + ids_text(entries_of(found@.take(i + 1))));
    }
    assert(found@.take(found.len() as int) =~= found@);
}

/// Renders the line of one enumerated register.
pub fn format_register(
    catalog: &Catalog,
    reg_id: u64,
    value: &[u8],
    options: DisplayOptions,
) -> (r: String)
    ensures
        r@ == register_line(reg_id, value@, entries_with_id(catalog@, reg_id), options),
{
    proof {
        reveal_strlit("0x");
        reveal_strlit(" ");
    }
    let mut out = String::new();
    if options.hex {
        out.append("0x");
        push_hex(&mut out, reg_id);
    } else {
        push_decimal(&mut out, reg_id);
    }
    if options.size {
        out.append(" ");
        push_decimal(&mut out, reg_size(reg_id) as u64);
    }
    if options.value {
        let text = format_value(value);
        out.append(" ");
        out.append(text.as_str());
    }
    if options.names {
        let found = catalog.lookup_by_id(reg_id);
        push_names(&mut out, &found);
    }
    assert(out@ =~= register_line(reg_id, value@, entries_with_id(catalog@, reg_id), options));
    out
}

/// Renders one line for each enumerated register, in order.
pub fn query(catalog: &Catalog, registers: &Vec<(u64, Vec<u8>)>, options: DisplayOptions) -> (r: Vec<
    String,
>)
    ensures
        r.len() == registers.len(),
        forall|i: int|
            0 <= i < r.len() ==> #[trigger] r[i]@ == register_line(
                registers[i].0,
                registers[i].1@,
                entries_with_id(catalog@, registers[i].0),
                options,
            ),
{
    let mut lines: Vec<String> = Vec::new();
    for i in 0..registers.len()
        invariant
            lines.len() == i,
            forall|k: int|
                0 <= k < i ==> #[trigger] lines[k]@ == register_line(
                    registers[k].0,
                    registers[k].1@,
                    entries_with_id(catalog@, registers[k].0),
                    options,
                ),
    {
        let line = format_register(catalog, registers[i].0, registers[i].1.as_slice(), options);
        lines.push(line);
    }
    lines
}

/// Renders one line for each identifier looked up, in order.
pub fn find_by_id(catalog: &Catalog, ids: &Vec<u64>) -> (r: Vec<String>)
    ensures
        r.len() == ids.len(),
        forall|i: int|
            0 <= i < r.len() ==> #[trigger] r[i]@ == id_line(ids[i], entries_with_id(catalog@, ids[i])),
{
    proof {
        reveal_strlit("id: ");
        reveal_strlit(" =>");
    }
    let mut lines: Vec<String> = Vec::new();
    for i in 0..ids.len()
        invariant
            lines.len() == i,
            forall|k: int|
                0 <= k < i ==> #[trigger] lines[k]@ == id_line(
                    ids[k],
                    entries_with_id(catalog@, ids[k]),
                ),
    {
        proof {
            reveal_strlit("id: ");
            reveal_strlit(" =>");
        }
        let id = ids[i];
        let mut out = String::new();
        out.append("id: ");
        push_decimal(&mut out, id);
        out.append(" =>");
        let found = catalog.lookup_by_id(id);
        push_names(&mut out, &found);
        assert(out@ =~= id_line(id, entries_with_id(catalog@, id)));
        lines.push(out);
    }
    lines
}

/// Renders one line for each register name looked up, in order.
pub fn find_by_register(catalog: &Catalog, names: &Vec<String>) -> (r: Vec<String>)
    ensures
        r.len() == names.len(),
        forall|i: int|
            0 <= i < r.len() ==> #[trigger] r[i]@ == name_line(
                names[i]@,
                entries_named(catalog@, names[i]@),
            ),
{
    proof {
        reveal_strlit("register: ");
        reveal_strlit(" =>");
    }
    let mut lines: Vec<String> = Vec::new();
    for i in 0..names.len()
        invariant
            lines.len() == i,
            forall|k: int|
                0 <= k < i ==> #[trigger] lines[k]@ == name_line(
                    names[k]@,
                    entries_named(catalog@, names[k]@),
                ),
    {
        proof {
            reveal_strlit("register: ");
            reveal_strlit(" =>");
        }
        let name = &names[i];
        let mut out = String::new();
        out.append("register: ");
        out.append(name.as_str());
        out.append(" =>");
        let found = catalog.lookup_by_name(name);
        push_ids(&mut out, &found);
        assert(out@ =~= name_line(name@, entries_named(catalog@, name@)));
        lines.push(out);
    }
    lines
}

} // verus!
