//! Picking the global data objects out of an ELF symbol table, with their
//! file addresses, so that another program (the HP core's) can be linked
//! against the ULP program's shared variables.

use vstd::prelude::*;
use vstd::string::StringExecFns;

verus! {

/// ELF symbol binding: global.
pub const STB_GLOBAL: u8 = 1;

/// ELF symbol type: data object.
pub const STT_OBJECT: u8 = 1;

/// One symbol table entry: its binding and type (as the ELF reader decodes
/// them), its section index, value and size, and its name as looked up in the
/// string table (`None` when the lookup failed).
#[derive(Clone, Debug)]
pub struct SymbolEntry {
    pub st_bind: u8,
    pub st_symtype: u8,
    pub st_shndx: u16,
    pub st_value: u64,
    pub st_size: u64,
    pub name: Option<String>,
}

/// A global data object and its address (section file offset plus value).
#[derive(Clone, Debug)]
pub struct GlobalObjectSymbol {
    pub address: u64,
    pub name: String,
}

/// `sym` is a global data object, and sized unless zero-sized ones are allowed.
pub open spec fn is_global_object(sym: SymbolEntry, allow_zero_sized: bool) -> bool {
    &&& sym.st_bind == STB_GLOBAL
    &&& sym.st_symtype == STT_OBJECT
    &&& (allow_zero_sized || sym.st_size != 0)
}

/// The selected symbols of `syms`, in order, as (address, name).
pub open spec fn global_objects(syms: Seq<SymbolEntry>, offsets: Seq<u64>, allow_zero_sized: bool) -> Seq<(int, Seq<char>)>
    decreases syms.len(),
{
    if syms.len() == 0 {
        Seq::empty()
    } else {
        let rest = global_objects(syms.drop_last(), offsets, allow_zero_sized);
        let s = syms.last();
        if is_global_object(s, allow_zero_sized) {
            rest.push((offsets[s.st_shndx as int] + s.st_value, s.name.unwrap()@))
        } else {
            rest
        }
    }
}

/// Each selected symbol has a name, a section in `offsets`, and an address
/// that fits in 64 bits.
pub open spec fn resolvable(syms: Seq<SymbolEntry>, offsets: Seq<u64>, allow_zero_sized: bool) -> bool {
    forall|i: int|
        0 <= i < syms.len() && is_global_object(#[trigger] syms[i], allow_zero_sized) ==> {
            &&& syms[i].name.is_some()
            &&& (syms[i].st_shndx as int) < offsets.len()
            &&& offsets[syms[i].st_shndx as int] + syms[i].st_value <= u64::MAX
        }
}

/// The view of a found symbol.
pub open spec fn symbol_view(g: GlobalObjectSymbol) -> (int, Seq<char>) {
    (g.address as int, g.name@)
}

/// The global data objects among `symbols` (sized ones only, unless
/// `allow_zero_sized`), in table order, each with its section's file offset
/// (`section_offsets`, by section index) added to its value.
pub fn get_global_symbols(symbols: &Vec<SymbolEntry>, section_offsets: &Vec<u64>, allow_zero_sized: bool) -> (r: Vec<GlobalObjectSymbol>)
    requires
        resolvable(symbols@, section_offsets@, allow_zero_sized),
    ensures
        r@.map_values(|g: GlobalObjectSymbol| symbol_view(g)) == global_objects(symbols@, section_offsets@, allow_zero_sized),
{
    let mut out: Vec<GlobalObjectSymbol> = Vec::new();
    let mut i: usize = 0;
    while i < symbols.len()
        invariant
            i <= symbols@.len(),
            resolvable(symbols@, section_offsets@, allow_zero_sized),
            out@.map_values(|g: GlobalObjectSymbol| symbol_view(g)) == global_objects(symbols@.take(i as int), section_offsets@, allow_zero_sized),
        decreases symbols@.len() - i,
    {
        let sym = &symbols[i];
        assert(symbols@.take(i as int + 1).drop_last() =~= symbols@.take(i as int));
        if sym.st_bind == STB_GLOBAL && sym.st_symtype == STT_OBJECT && (allow_zero_sized || sym.st_size != 0) {
            assert(is_global_object(symbols@[i as int], allow_zero_sized));
            let name = match &sym.name {
                Some(n) => n.clone(),
                None => String::new(),
            };
            let offset = section_offsets[sym.st_shndx as usize];
            let address = offset + sym.st_value;
            let ghost before = out@;
            out.push(GlobalObjectSymbol { address, name });
            assert(out@.map_values(|g: GlobalObjectSymbol| symbol_view(g)) =~= before.map_values(|g: GlobalObjectSymbol| symbol_view(g)).push((address as int, symbols@[i as int].name.unwrap()@)));
        }
        i = i + 1;
    }
    assert(symbols@.take(symbols@.len() as int) =~= symbols@);
    out
}

/// The list is exactly the symbols of global binding and data-object type
/// (sized ones, unless zero-sized ones are allowed), in table order, each
/// placed at its section's file offset plus its value: local and weak
/// symbols, functions and other types never appear.
pub proof fn lemma_global_objects_are_global_data(syms: Seq<SymbolEntry>, offsets: Seq<u64>, allow_zero_sized: bool)
    ensures
        global_objects(syms, offsets, allow_zero_sized) == syms.filter(
            |s: SymbolEntry| s.st_bind == 1 && s.st_symtype == 1 && (allow_zero_sized || s.st_size != 0),
        ).map_values(|s: SymbolEntry| (offsets[s.st_shndx as int] + s.st_value, s.name.unwrap()@)),
    decreases syms.len(),
{
    reveal(Seq::filter);
    let f = |s: SymbolEntry| s.st_bind == 1 && s.st_symtype == 1 && (allow_zero_sized || s.st_size != 0);
    let g = |s: SymbolEntry| (offsets[s.st_shndx as int] + s.st_value, s.name.unwrap()@);
    if syms.len() > 0 {
        let pre = syms.drop_last();
        lemma_global_objects_are_global_data(pre, offsets, allow_zero_sized);
        if f(syms.last()) {
            assert(syms.filter(f) == pre.filter(f).push(syms.last()));
            assert(syms.filter(f).map_values(g) =~= pre.filter(f).map_values(g).push(g(syms.last())));
        } else {
            assert(syms.filter(f) == pre.filter(f));
        }
    } else {
        assert(syms.filter(f).map_values(g) =~= Seq::<(int, Seq<char>)>::empty());
    }
}

/// `sym` has a size.
pub open spec fn is_sized(sym: SymbolEntry) -> bool {
    sym.st_size != 0
}

/// Leaving out zero-sized objects is the same as dropping the zero-sized
/// symbols first: the list without them is the list with them, minus the
/// entries of zero-sized symbols, in the same order. So it is never longer,
/// and it is the same list exactly when no global data object has size zero.
pub proof fn lemma_zero_sized_filter(syms: Seq<SymbolEntry>, offsets: Seq<u64>)
    ensures
        global_objects(syms, offsets, false) == global_objects(
            syms.filter(|s: SymbolEntry| is_sized(s)),
            offsets,
            true,
        ),
        global_objects(syms, offsets, false).len() <= global_objects(syms, offsets, true).len(),
        (global_objects(syms, offsets, false).len() == global_objects(syms, offsets, true).len())
            <==> (forall|i: int|
            0 <= i < syms.len() && is_global_object(#[trigger] syms[i], true) ==> syms[i].st_size
                != 0),
        (global_objects(syms, offsets, false) == global_objects(syms, offsets, true)) <==> (forall|
            i: int,
        |
            0 <= i < syms.len() && is_global_object(#[trigger] syms[i], true) ==> syms[i].st_size
                != 0),
    decreases syms.len(),
{
    reveal(Seq::filter);
    let f = |s: SymbolEntry| is_sized(s);
    if syms.len() > 0 {
        let pre = syms.drop_last();
        lemma_zero_sized_filter(pre, offsets);
        let s = syms.last();
        if is_sized(s) {
            assert(syms.filter(f).drop_last() =~= pre.filter(f));
        }
        let all_pre = forall|i: int|
            0 <= i < pre.len() && is_global_object(#[trigger] pre[i], true) ==> pre[i].st_size != 0;
        let all = forall|i: int|
            0 <= i < syms.len() && is_global_object(#[trigger] syms[i], true) ==> syms[i].st_size != 0;
        if all {
            assert forall|i: int|
                0 <= i < pre.len() && is_global_object(#[trigger] pre[i], true) implies pre[i].st_size
                != 0 by {
                assert(pre[i] == syms[i]);
            }
        }
        if all_pre && (!is_global_object(s, true) || s.st_size != 0) {
            assert forall|i: int|
                0 <= i < syms.len() && is_global_object(#[trigger] syms[i], true) implies syms[i].st_size
                != 0 by {
                if i < pre.len() {
                    assert(pre[i] == syms[i]);
                }
            }
        }
        let gf = global_objects(syms, offsets, false);
        let gt = global_objects(syms, offsets, true);
        if !all {
            assert(gf.len() < gt.len());
            assert(gf != gt) by {
                if gf == gt {
                    assert(gf.len() == gt.len());
                }
            }
        }
    }
}

/// Appends `c` to `s` (`String::push`).
#[verifier::external_body]
fn string_push(s: &mut String, c: char)
    ensures
        final(s)@ == old(s)@.push(c),
{
    s.push(c);
}

/// The lower-case hexadecimal digit for `d` (below 16).
pub open spec fn hex_digit(d: nat) -> char {
    if d < 10 {
        (48 + d) as char
    } else {
        (87 + d) as char
    }
}

/// The lower-case hexadecimal digits of `n`, without leading zeros ("0" for zero).
pub open spec fn hex_digits(n: nat) -> Seq<char>
    decreases n,
{
    if n < 16 {
        seq![hex_digit(n)]
    } else {
        hex_digits(n / 16).push(hex_digit(n % 16))
    }
}

/// The number that the hexadecimal digit `c` stands for ('0' to '9' for 0 to
/// 9, 'a' to 'f' for 10 to 15), or -1 when `c` is no such digit.
pub open spec fn hex_char_value(c: char) -> int {
    if '0' <= c && c <= '9' {
        c as int - '0' as int
    } else if 'a' <= c && c <= 'f' {
        c as int - 'a' as int + 10
    } else {
        -1
    }
}

/// The number that the hexadecimal numeral `cs` (most significant digit
/// first) stands for.
pub open spec fn hex_value(cs: Seq<char>) -> int
    decreases cs.len(),
{
    if cs.len() == 0 {
        0
    } else {
        hex_value(cs.drop_last()) * 16 + hex_char_value(cs.last())
    }
}

/// The hexadecimal digits written for `n` are lower-case hexadecimal digits,
/// without a leading zero, and read back in base 16 they give `n`.
pub proof fn lemma_hex_digits_denote(n: nat)
    ensures
        hex_value(hex_digits(n)) == n,
        hex_digits(n).len() >= 1,
        forall|i: int| 0 <= i < hex_digits(n).len() ==> 0 <= #[trigger] hex_char_value(hex_digits(n)[i]) < 16,
        n > 0 ==> hex_digits(n)[0] != '0',
    decreases n,
{
    if n < 16 {
        assert(hex_digits(n) =~= seq![hex_digit(n)]);
        assert(hex_value(seq![hex_digit(n)].drop_last()) == 0) by {
            assert(seq![hex_digit(n)].drop_last() =~= Seq::<char>::empty());
        }
    } else {
        let q = n / 16;
        lemma_hex_digits_denote(q);
        let d = hex_digits(n);
        assert(d.drop_last() =~= hex_digits(q));
        assert forall|i: int| 0 <= i < d.len() implies 0 <= #[trigger] hex_char_value(d[i]) < 16 by {
            if i < d.len() - 1 {
                assert(d[i] == hex_digits(q)[i]);
            }
        }
        assert(d[0] == hex_digits(q)[0]);
    }
}

/// Appends the hexadecimal digits of `n` to `s`.
fn push_hex_digits(s: &mut String, n: u64)
    ensures
        final(s)@ == old(s)@ + hex_digits(n as nat),
    decreases n,
{
    if n >= 16 {
        push_hex_digits(s, n / 16);
    }
    let d = (n % 16) as u8;
    let c = if d < 10 { (48u8 + d) as char } else { (87u8 + d) as char };
    string_push(s, c);
    assert(old(s)@ + hex_digits(n as nat) =~= if n >= 16 {
        old(s)@ + hex_digits((n / 16) as nat) + seq![c]
    } else {
        old(s)@ + seq![c]
    });
}

/// `address` written as `0x` followed by its lower-case hexadecimal digits.
pub fn hex_address(address: u64) -> (r: String)
    ensures
        r@ == "0x"@ + hex_digits(address as nat),
{
    let mut s = String::new();
    s.append("0x");
    push_hex_digits(&mut s, address);
    s
}

/// The linker-script line that gives `name` the address `address` moved by
/// `base_address`: `PROVIDE(name = 0x...);`.
pub fn linker_script_line(name: &String, address: u64, base_address: u64) -> (r: String)
    requires
        address + base_address <= u64::MAX,
    ensures
        r@ == "PROVIDE("@ + name@ + " = "@ + "0x"@ + hex_digits((address + base_address) as nat) + ");"@,
{
    let mut s = String::new();
    s.append("PROVIDE(");
    s.append(name.as_str());
    s.append(" = ");
    let hex = hex_address(address + base_address);
    s.append(hex.as_str());
    s.append(");");
    s
}

} // verus!
