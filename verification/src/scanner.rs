//! Binary symbol scanner: given the bytes of a firmware image, find the
//! address of the fixed marker symbol that names the RTT control block.
//!
//! Parsing the image as an executable-and-linkable binary is done by an
//! outside library; the scan over the resulting symbol table is verified
//! here. Malformed bytes and images without the symbol both yield "not
//! found", never a failure.

use vstd::prelude::*;
use vstd::string::StringExecFns;

verus! {

/// One entry of a firmware image's symbol table: the symbol's name and its
/// address value.
pub struct SymbolEntry {
    pub name: String,
    pub addr: u64,
}

impl View for SymbolEntry {
    type V = (Seq<char>, u64);

    open spec fn view(&self) -> (Seq<char>, u64) {
        (self.name@, self.addr)
    }
}

/// The named symbols that parsing `bytes` as an executable-and-linkable
/// image yields, in symbol-table order; empty when the bytes are not a
/// well-formed image. The listed symbols are a function of the bytes alone.
pub uninterp spec fn elf_symbols(bytes: Seq<u8>) -> Seq<(Seq<char>, u64)>;

/// Relies on goblin::elf::Elf::parse and on goblin's symbol and string
/// tables: the named symbols of an image are a function of its bytes alone,
/// and a parse failure yields no symbols.
#[verifier::external_body]
fn parse_symbols(bytes: &Vec<u8>) -> (r: Vec<SymbolEntry>)
    ensures
        r@.len() == elf_symbols(bytes@).len(),
        forall|i: int| 0 <= i < r@.len() ==> #[trigger] r@[i]@ == elf_symbols(bytes@)[i],
{
    let mut out = Vec::new();
    if let Ok(elf) = goblin::elf::Elf::parse(bytes.as_slice()) {
        for sym in &elf.syms {
            if let Some(name) = elf.strtab.get_at(sym.st_name) {
                out.push(SymbolEntry { name: name.to_string(), addr: sym.st_value });
            }
        }
    }
    out
}

/// The fixed name of the symbol that marks the RTT control block.
pub open spec fn marker_symbol() -> Seq<char> {
    "_SEGGER_RTT"@
}

/// The address of the first symbol named `name`, in symbol-table order, or
/// `None` when no symbol bears that name.
pub open spec fn find_symbol_spec(syms: Seq<(Seq<char>, u64)>, name: Seq<char>) -> Option<u64>
    decreases syms.len(),
{
    if syms.len() == 0 {
        None
    } else if syms[0].0 == name {
        Some(syms[0].1)
    } else {
        find_symbol_spec(syms.drop_first(), name)
    }
}

/// Scan a firmware image's bytes for the RTT control-block marker symbol
/// and return its address value; `None` when the bytes are not a valid
/// image or when no symbol bears the marker name.
pub fn get_rtt_symbol(image: &Vec<u8>) -> (r: Option<u64>)
    ensures
        r == find_symbol_spec(elf_symbols(image@), marker_symbol()),
{
    let syms = parse_symbols(image);
    let marker = String::from_str("_SEGGER_RTT");
    let ghost table = elf_symbols(image@);
    proof {
        assert(table.skip(0) =~= table);
    }
    let mut i: usize = 0;
    while i < syms.len()
        invariant
            table == elf_symbols(image@),
            i <= syms.len(),
            syms@.len() == table.len(),
            forall|k: int| 0 <= k < syms@.len() ==> #[trigger] syms@[k]@ == table[k],
            marker@ == marker_symbol(),
            find_symbol_spec(table, marker_symbol()) == find_symbol_spec(
                table.skip(i as int),
                marker_symbol(),
            ),
        decreases syms.len() - i,
    {
        proof {
            assert(syms@[i as int]@ == table[i as int]);
            assert(table.skip(i as int)[0] == table[i as int]);
            assert(table.skip(i as int).len() > 0);
        }
        if syms[i].name == marker {
            proof {
                assert(table[i as int].0 == marker_symbol());
                assert(find_symbol_spec(table.skip(i as int), marker_symbol()) == Some(
                    table[i as int].1,
                ));
                assert(table[i as int].1 == syms@[i as int].addr);
            }
            return Some(syms[i].addr);
        }
        proof {
            assert(table[i as int].0 != marker_symbol());
            assert(table.skip(i as int).drop_first() =~= table.skip(i as int + 1));
        }
        i = i + 1;
    }
    proof {
        assert(table.skip(i as int).len() == 0);
    }
    None
}

/// Scanner law: when exactly one listed symbol bears the sought name, the
/// scan returns that symbol's address.
pub proof fn lemma_find_symbol_unique(syms: Seq<(Seq<char>, u64)>, name: Seq<char>, i: int)
    requires
        0 <= i < syms.len(),
        syms[i].0 == name,
        forall|j: int| 0 <= j < syms.len() && j != i ==> #[trigger] syms[j].0 != name,
    ensures
        find_symbol_spec(syms, name) == Some(syms[i].1),
    decreases syms.len(),
{
    if i > 0 {
        assert(forall|j: int|
            0 <= j < syms.drop_first().len() && j != i - 1 ==> #[trigger] syms.drop_first()[j].0
                != name);
        lemma_find_symbol_unique(syms.drop_first(), name, i - 1);
    }
}

/// Scanner law: when no listed symbol bears the sought name, the scan
/// returns "not found".
pub proof fn lemma_find_symbol_absent(syms: Seq<(Seq<char>, u64)>, name: Seq<char>)
    requires
        forall|j: int| 0 <= j < syms.len() ==> #[trigger] syms[j].0 != name,
    ensures
        find_symbol_spec(syms, name) is None,
    decreases syms.len(),
{
    if syms.len() > 0 {
        assert(forall|j: int|
            0 <= j < syms.drop_first().len() ==> #[trigger] syms.drop_first()[j].0 != name);
        lemma_find_symbol_absent(syms.drop_first(), name);
    }
}

} // verus!
