//! The linkage-anchor generator.  Exported wire functions are resolved by
//! name from the managed runtime at load time and are otherwise unreferenced
//! from native code, so link-time dead-code elimination would discard them.
//! The anchor functions emitted here XOR every exported function's address
//! into an accumulator, forcing the linker to keep each one reachable.

use crate::text::{contains_sub, string_views, sub_at};
use vstd::prelude::*;
use vstd::string::{StrSliceExecFns, StringExecFns};

verus! {

/// A word character of an exported symbol: a letter, digit or underscore.
pub open spec fn is_word_char(c: char) -> bool {
    c == '_' || ('0' as u32) <= (c as u32) <= ('9' as u32) || ('a' as u32) <= (c as u32) <= (
    'z' as u32) || ('A' as u32) <= (c as u32) <= ('Z' as u32)
}

/// `wire_` followed by at least one word character occurs at position `i`.
pub open spec fn wire_match_at(s: Seq<char>, i: int) -> bool {
    &&& 0 <= i
    &&& i + 5 < s.len()
    &&& s[i] == 'w'
    &&& s[i + 1] == 'i'
    &&& s[i + 2] == 'r'
    &&& s[i + 3] == 'e'
    &&& s[i + 4] == '_'
    &&& is_word_char(s[i + 5])
}

/// The name contains `wire_` followed by a word character: it names an
/// exported wire function and must carry the module's unique prefix.
pub open spec fn has_wire_match(s: Seq<char>) -> bool {
    exists|i: int| wire_match_at(s, i)
}

fn is_word_char_exec(c: char) -> (r: bool)
    ensures
        r == is_word_char(c),
{
    c == '_' || ('0' <= c && c <= '9') || ('a' <= c && c <= 'z') || ('A' <= c && c <= 'Z')
}

/// Whether the name contains `wire_` followed by a word character.
pub fn has_wire_pattern(s: &str) -> (r: bool)
    ensures
        r == has_wire_match(s@),
{
    let len = s.unicode_len();
    if len < 6 {
        return false;
    }
    let mut i: usize = 0;
    while i <= len - 6
        invariant
            len == s@.len(),
            6 <= len,
            i <= len - 5,
            forall|k: int| 0 <= k < i ==> !wire_match_at(s@, k),
        decreases len - i,
    {
        if s.get_char(i) == 'w' && s.get_char(i + 1) == 'i' && s.get_char(i + 2) == 'r'
            && s.get_char(i + 3) == 'e' && s.get_char(i + 4) == '_' && is_word_char_exec(
            s.get_char(i + 5),
        ) {
            proof {
                assert(wire_match_at(s@, i as int));
            }
            return true;
        }
        i += 1;
    }
    proof {
        assert(forall|k: int| wire_match_at(s@, k) ==> 0 <= k <= len - 6);
    }
    false
}

/// A name as the anchor lists it: wire-function names carry the module's
/// unique prefix, any other name is kept as it is.
pub open spec fn prefixed_name(prefix: Seq<char>, name: Seq<char>) -> Seq<char> {
    if has_wire_match(name) {
        prefix + name
    } else {
        name
    }
}

/// All names as the anchor lists them.
pub open spec fn prefixed_names(prefix: Seq<char>, names: Seq<Seq<char>>) -> Seq<Seq<char>> {
    names.map_values(|n: Seq<char>| prefixed_name(prefix, n))
}

/// Prefixes every wire-function name with the module's unique identifier.
pub fn prefix_wire_names(prefix: &str, func_names: &Vec<String>) -> (r: Vec<String>)
    ensures
        string_views(r@) == prefixed_names(prefix@, string_views(func_names@)),
{
    let mut out: Vec<String> = Vec::new();
    let mut i: usize = 0;
    while i < func_names.len()
        invariant
            i <= func_names@.len(),
            out@.len() == i,
            forall|k: int| 0 <= k < i ==> out@[k]@ == prefixed_name(prefix@, func_names@[k]@),
        decreases func_names@.len() - i,
    {
        let name = &func_names[i];
        if has_wire_pattern(name.as_str()) {
            let mut p = String::from_str(prefix);
            p.append(name.as_str());
            out.push(p);
        } else {
            out.push(name.clone());
        }
        i += 1;
    }
    proof {
        assert(string_views(out@) =~= prefixed_names(prefix@, string_views(func_names@)));
    }
    out
}

/// The anchor function's name for a generation unit: the shared stem, plus
/// the unit's class name when the anchor stands for one named unit.
pub open spec fn dummy_signature_text(api_block_name: Seq<char>) -> Seq<char> {
    if api_block_name.len() == 0 {
        "dummy_method_to_enforce_bundling"@
    } else {
        "dummy_method_to_enforce_bundling_"@ + api_block_name
    }
}

/// The anchor function's name for a generation unit.
pub fn get_dummy_signature(api_block_name: &str) -> (r: String)
    ensures
        r@ == dummy_signature_text(api_block_name@),
{
    if api_block_name.is_empty() {
        String::from_str("dummy_method_to_enforce_bundling")
    } else {
        let mut s = String::from_str("dummy_method_to_enforce_bundling_");
        s.append(api_block_name);
        s
    }
}

/// One anchor statement: XOR the named function's address into the
/// accumulator.
pub open spec fn dummy_var_line(name: Seq<char>) -> Seq<char> {
    "    dummy_var ^= ((int64_t) (void*) "@ + name + ");"@
}

/// The anchor statements after the first, each on a fresh line.
pub open spec fn dummy_var_rest(names: Seq<Seq<char>>) -> Seq<char>
    decreases names.len(),
{
    if names.len() == 0 {
        Seq::empty()
    } else {
        "\n"@ + dummy_var_line(names[0]) + dummy_var_rest(names.drop_first())
    }
}

/// One anchor statement per listed name, newline-separated.
pub open spec fn dummy_var_lines(names: Seq<Seq<char>>) -> Seq<char> {
    if names.len() == 0 {
        Seq::empty()
    } else {
        dummy_var_line(names[0]) + dummy_var_rest(names.drop_first())
    }
}

/// The XOR statements of the anchor body, one per listed function name.
pub fn get_dummy_var(func_names: &Vec<String>) -> (r: String)
    ensures
        r@ == dummy_var_lines(string_views(func_names@)),
{
    if func_names.len() == 0 {
        return String::new();
    }
    let mut s = String::from_str("    dummy_var ^= ((int64_t) (void*) ");
    s.append(func_names[0].as_str());
    s.append(");");
    let ghost all = string_views(func_names@);
    proof {
        assert(all.skip(1) =~= all.drop_first());
    }
    let mut i: usize = 1;
    while i < func_names.len()
        invariant
            1 <= i <= func_names@.len(),
            all == string_views(func_names@),
            s@ + dummy_var_rest(all.skip(i as int)) == dummy_var_lines(all),
        decreases func_names@.len() - i,
    {
        let ghost s_old = s@;
        s.append("\n");
        s.append("    dummy_var ^= ((int64_t) (void*) ");
        s.append(func_names[i].as_str());
        s.append(");");
        proof {
            let tail = all.skip(i as int);
            assert(tail[0] == all[i as int]);
            assert(tail.drop_first() =~= all.skip(i + 1));
            assert(s@ + dummy_var_rest(all.skip(i + 1)) =~= s_old + dummy_var_rest(tail));
        }
        i += 1;
    }
    proof {
        assert(all.skip(all.len() as int) =~= Seq::<Seq<char>>::empty());
        assert(s@ + Seq::<char>::empty() =~= s@);
    }
    s
}

/// One complete anchor function: a static accumulator seeded with zero, one
/// XOR statement per listed function name, and the accumulator returned.
pub open spec fn dummy_func_text(
    api_block_name: Seq<char>,
    names: Seq<Seq<char>>,
    prefix: Seq<char>,
) -> Seq<char> {
    "static int64_t "@ + prefix + dummy_signature_text(api_block_name)
        + "(void) {\n    int64_t dummy_var = 0;\n"@ + dummy_var_lines(names)
        + "\n    return dummy_var;\n}\n"@
}

/// Emits one complete anchor function over the listed function names.
pub fn get_dummy_func(api_block_name: &str, func_names: &Vec<String>, prefix: &str) -> (r: String)
    ensures
        r@ == dummy_func_text(api_block_name@, string_views(func_names@), prefix@),
{
    let signature = get_dummy_signature(api_block_name);
    let content = get_dummy_var(func_names);
    let mut s = String::from_str("static int64_t ");
    s.append(prefix);
    s.append(signature.as_str());
    s.append("(void) {\n    int64_t dummy_var = 0;\n");
    s.append(content.as_str());
    s.append("\n    return dummy_var;\n}\n");
    s
}

/// A slash-separated output path, split into directory components and a file
/// name.
pub struct OutPath {
    pub dirs: Vec<String>,
    pub file: String,
}

/// One generation unit's options: its class/API-block name, its ordinal
/// block index (index 0 is the root unit), its unique symbol-prefix
/// identifier, and its output paths, one per output flavor.
pub struct Opts {
    pub class_name: String,
    pub block_index: u64,
    pub unique_id: String,
    pub c_output_path: Vec<OutPath>,
}

impl Opts {
    /// The unit's unique identifier, the mandatory prefix of every exported
    /// symbol it emits.
    pub fn get_unique_id(&self) -> (r: String)
        ensures
            r@ == self.unique_id@,
    {
        self.unique_id.clone()
    }
}

/// How many leading components two paths share.
pub open spec fn common_prefix_len(a: Seq<Seq<char>>, b: Seq<Seq<char>>) -> nat
    decreases a.len(),
{
    if a.len() == 0 || b.len() == 0 || a[0] != b[0] {
        0
    } else {
        1 + common_prefix_len(a.drop_first(), b.drop_first())
    }
}

fn common_from(a: &Vec<String>, b: &Vec<String>, i: usize) -> (r: usize)
    requires
        i <= a@.len(),
        i <= b@.len(),
    ensures
        r == common_prefix_len(string_views(a@).skip(i as int), string_views(b@).skip(i as int)),
        r <= a@.len() - i,
        r <= b@.len() - i,
    decreases a@.len() - i,
{
    let ghost av = string_views(a@);
    let ghost bv = string_views(b@);
    if i < a.len() && i < b.len() && a[i] == b[i] {
        proof {
            assert(av.skip(i as int)[0] == av[i as int]);
            assert(bv.skip(i as int)[0] == bv[i as int]);
            assert(av.skip(i as int).drop_first() =~= av.skip(i + 1));
            assert(bv.skip(i as int).drop_first() =~= bv.skip(i + 1));
        }
        1 + common_from(a, b, i + 1)
    } else {
        proof {
            if i < a.len() && i < b.len() {
                assert(av.skip(i as int)[0] == av[i as int]);
                assert(bv.skip(i as int)[0] == bv[i as int]);
            }
        }
        0
    }
}

/// The relative directory route from `from` to `to`: one `..` per component
/// of `from` past the shared prefix, then the rest of `to`.
pub open spec fn spec_relative_dir(from: Seq<Seq<char>>, to: Seq<Seq<char>>) -> Seq<Seq<char>> {
    let k = common_prefix_len(from, to) as int;
    Seq::new((from.len() - k) as nat, |i: int| ".."@) + to.skip(k)
}

/// Computes the relative directory route from `from` to `to`.
pub fn relative_dir(from: &Vec<String>, to: &Vec<String>) -> (r: Vec<String>)
    ensures
        string_views(r@) == spec_relative_dir(string_views(from@), string_views(to@)),
{
    let ghost fv = string_views(from@);
    let ghost tv = string_views(to@);
    proof {
        assert(fv.skip(0) =~= fv);
        assert(tv.skip(0) =~= tv);
    }
    let k = common_from(from, to, 0);
    let mut out: Vec<String> = Vec::new();
    let mut i: usize = k;
    while i < from.len()
        invariant
            k <= i <= from@.len(),
            out@.len() == i - k,
            forall|t: int| 0 <= t < out@.len() ==> out@[t]@ == ".."@,
        decreases from@.len() - i,
    {
        out.push(String::from_str(".."));
        i += 1;
    }
    let base = out.len();
    let mut j: usize = k;
    while j < to.len()
        invariant
            k <= j <= to@.len(),
            base == from@.len() - k,
            out@.len() == base + (j - k),
            forall|t: int| 0 <= t < base ==> (#[trigger] out@[t])@ == ".."@,
            forall|t: int| base <= t < out@.len() ==> (#[trigger] out@[t])@ == to@[t - base + k]@,
        decreases to@.len() - j,
    {
        out.push(to[j].clone());
        proof {
            assert(out@[out@.len() - 1]@ == to@[j as int]@);
        }
        j += 1;
    }
    proof {
        assert(string_views(out@) =~= spec_relative_dir(string_views(from@), string_views(to@)));
    }
    out
}

/// A path joined with `/` separators, ending in the file name.
pub open spec fn join_path_text(parts: Seq<Seq<char>>, file: Seq<char>) -> Seq<char>
    decreases parts.len(),
{
    if parts.len() == 0 {
        file
    } else {
        parts[0] + "/"@ + join_path_text(parts.drop_first(), file)
    }
}

/// Joins path components and a file name with `/` separators.
pub fn join_path(parts: &Vec<String>, file: &str) -> (r: String)
    ensures
        r@ == join_path_text(string_views(parts@), file@),
{
    let ghost pv = string_views(parts@);
    let mut s = String::new();
    proof {
        assert(pv.skip(0) =~= pv);
    }
    let mut i: usize = 0;
    while i < parts.len()
        invariant
            i <= parts@.len(),
            pv == string_views(parts@),
            s@ + join_path_text(pv.skip(i as int), file@) == join_path_text(pv, file@),
        decreases parts@.len() - i,
    {
        let ghost s_old = s@;
        s.append(parts[i].as_str());
        s.append("/");
        proof {
            let tail = pv.skip(i as int);
            assert(tail[0] == pv[i as int]);
            assert(tail.drop_first() =~= pv.skip(i + 1));
            assert(s@ + join_path_text(pv.skip(i + 1), file@) =~= s_old + join_path_text(
                tail,
                file@,
            ));
        }
        i += 1;
    }
    proof {
        assert(pv.skip(pv.len() as int) =~= Seq::<Seq<char>>::empty());
    }
    s.append(file);
    s
}

/// A header-reference directive naming another unit's generated header by
/// its route relative to the root unit's output directory.
pub open spec fn header_ref_text(
    from_dirs: Seq<Seq<char>>,
    to_dirs: Seq<Seq<char>>,
    to_file: Seq<char>,
) -> Seq<char> {
    "#in"@ + "clude \""@ + join_path_text(spec_relative_dir(from_dirs, to_dirs), to_file) + "\""@
}

/// Emits the header-reference directive for one other unit.
pub fn header_ref(from_dirs: &Vec<String>, to_dirs: &Vec<String>, to_file: &str) -> (r: String)
    ensures
        r@ == header_ref_text(string_views(from_dirs@), string_views(to_dirs@), to_file@),
{
    let rel = relative_dir(from_dirs, to_dirs);
    let joined = join_path(&rel, to_file);
    let mut s = String::from_str("#in");
    s.append("clude \"");
    s.append(joined.as_str());
    s.append("\"");
    s
}

/// The header-reference directive for one generation unit's output path.
pub open spec fn unit_header_ref_text(from_dirs: Seq<Seq<char>>, unit: Opts, idx: int) -> Seq<
    char,
> {
    header_ref_text(
        from_dirs,
        string_views(unit.c_output_path@[idx].dirs@),
        unit.c_output_path@[idx].file@,
    )
}

/// Header-reference directives after the first, each on a fresh line.
pub open spec fn header_refs_rest(from_dirs: Seq<Seq<char>>, units: Seq<Opts>, idx: int) -> Seq<
    char,
>
    decreases units.len(),
{
    if units.len() == 0 {
        Seq::empty()
    } else {
        "\n"@ + unit_header_ref_text(from_dirs, units[0], idx) + header_refs_rest(
            from_dirs,
            units.drop_first(),
            idx,
        )
    }
}

/// One header-reference directive per unit, newline-separated.
pub open spec fn header_refs_text(from_dirs: Seq<Seq<char>>, units: Seq<Opts>, idx: int) -> Seq<
    char,
> {
    if units.len() == 0 {
        Seq::empty()
    } else {
        unit_header_ref_text(from_dirs, units[0], idx) + header_refs_rest(
            from_dirs,
            units.drop_first(),
            idx,
        )
    }
}

fn build_other_headers(config: &Opts, all_configs: &Vec<Opts>, c_path_index: usize) -> (r: String)
    requires
        1 <= all_configs@.len(),
        c_path_index < config.c_output_path@.len(),
        forall|k: int|
            0 <= k < all_configs@.len() ==> c_path_index < (
            #[trigger] all_configs@[k]).c_output_path@.len(),
    ensures
        r@ == header_refs_text(
            string_views(config.c_output_path@[c_path_index as int].dirs@),
            all_configs@.skip(1),
            c_path_index as int,
        ),
{
    let ghost from_dirs = string_views(config.c_output_path@[c_path_index as int].dirs@);
    let ghost others = all_configs@.skip(1);
    if all_configs.len() <= 1 {
        proof {
            assert(others.len() == 0);
        }
        return String::new();
    }
    let from = &config.c_output_path[c_path_index];
    let first = &all_configs[1].c_output_path[c_path_index];
    let mut s = header_ref(&from.dirs, &first.dirs, first.file.as_str());
    proof {
        assert(others[0] == all_configs@[1]);
        assert(others.drop_first() =~= all_configs@.skip(2));
    }
    let mut i: usize = 2;
    while i < all_configs.len()
        invariant
            2 <= i,
            i <= all_configs@.len() || i == 2,
            c_path_index < config.c_output_path@.len(),
            forall|k: int|
                0 <= k < all_configs@.len() ==> c_path_index < (
                #[trigger] all_configs@[k]).c_output_path@.len(),
            from == config.c_output_path@[c_path_index as int],
            from_dirs == string_views(config.c_output_path@[c_path_index as int].dirs@),
            others == all_configs@.skip(1),
            s@ + header_refs_rest(from_dirs, all_configs@.skip(i as int), c_path_index as int)
                == header_refs_text(from_dirs, others, c_path_index as int),
        decreases all_configs@.len() - i,
    {
        let ghost s_old = s@;
        let unit = &all_configs[i].c_output_path[c_path_index];
        let line = header_ref(&from.dirs, &unit.dirs, unit.file.as_str());
        s.append("\n");
        s.append(line.as_str());
        proof {
            let tail = all_configs@.skip(i as int);
            assert(tail[0] == all_configs@[i as int]);
            assert(tail.drop_first() =~= all_configs@.skip(i + 1));
            assert(line@ == unit_header_ref_text(from_dirs, tail[0], c_path_index as int));
            assert(header_refs_rest(from_dirs, tail, c_path_index as int) == "\n"@
                + unit_header_ref_text(from_dirs, tail[0], c_path_index as int) + header_refs_rest(
                from_dirs,
                all_configs@.skip(i + 1),
                c_path_index as int,
            ));
            assert(s@ + header_refs_rest(from_dirs, all_configs@.skip(i + 1), c_path_index as int)
                =~= s_old + header_refs_rest(from_dirs, tail, c_path_index as int));
        }
        i += 1;
    }
    proof {
        assert(all_configs@.skip(all_configs@.len() as int) =~= Seq::<Opts>::empty());
        assert(s@ + Seq::<char>::empty() =~= s@);
    }
    s
}

/// The complete linkage-anchor text of one generation unit.  A lone unit
/// emits one anchor over its (prefixed) wire-function names.  With several
/// units, every unit emits its own named anchor; the root unit (block
/// index 0) additionally emits the header-reference directives of every
/// other unit and an umbrella anchor that XORs every unit's anchor-function
/// signature, so that linking the root's translation unit alone retains
/// every unit's exported symbols.
pub open spec fn generate_dummy_text(
    config: Opts,
    all_configs: Seq<Opts>,
    func_names: Seq<Seq<char>>,
    idx: int,
) -> Seq<char> {
    let names = prefixed_names(config.unique_id@, func_names);
    if all_configs.len() > 1 {
        let basic = dummy_func_text(config.class_name@, names, config.unique_id@);
        if config.block_index == 0 {
            let sigs = Seq::new(
                all_configs.len(),
                |i: int| dummy_signature_text(all_configs[i].class_name@),
            );
            basic + "\n"@ + header_refs_text(
                string_views(config.c_output_path@[idx].dirs@),
                all_configs.skip(1),
                idx,
            ) + "\n"@ + dummy_func_text(Seq::empty(), sigs, config.unique_id@)
        } else {
            basic
        }
    } else {
        dummy_func_text(Seq::empty(), names, config.unique_id@)
    }
}

/// Emits the linkage-anchor section for one generation unit.
pub fn generate_dummy(
    config: &Opts,
    all_configs: &Vec<Opts>,
    func_names: &Vec<String>,
    c_path_index: usize,
) -> (r: String)
    requires
        c_path_index < config.c_output_path@.len(),
        forall|k: int|
            0 <= k < all_configs@.len() ==> c_path_index < (
            #[trigger] all_configs@[k]).c_output_path@.len(),
    ensures
        r@ == generate_dummy_text(
            *config,
            all_configs@,
            string_views(func_names@),
            c_path_index as int,
        ),
{
    let prefix = config.get_unique_id();
    let names = prefix_wire_names(prefix.as_str(), func_names);
    proof {
        reveal_strlit("");
        assert(""@ =~= Seq::<char>::empty());
    }
    if all_configs.len() > 1 {
        let basic = get_dummy_func(config.class_name.as_str(), &names, prefix.as_str());
        if config.block_index == 0 {
            let mut sigs: Vec<String> = Vec::new();
            let mut i: usize = 0;
            while i < all_configs.len()
                invariant
                    i <= all_configs@.len(),
                    sigs@.len() == i,
                    forall|k: int|
                        0 <= k < i ==> (#[trigger] sigs@[k])@ == dummy_signature_text(
                            all_configs@[k].class_name@,
                        ),
                decreases all_configs@.len() - i,
            {
                sigs.push(get_dummy_signature(all_configs[i].class_name.as_str()));
                i += 1;
            }
            let headers = build_other_headers(config, all_configs, c_path_index);
            let umbrella = get_dummy_func("", &sigs, prefix.as_str());
            proof {
                assert(string_views(sigs@) =~= Seq::new(
                    all_configs@.len(),
                    |i: int| dummy_signature_text(all_configs@[i].class_name@),
                ));
            }
            let mut s = basic;
            s.append("\n");
            s.append(headers.as_str());
            s.append("\n");
            s.append(umbrella.as_str());
            s
        } else {
            basic
        }
    } else {
        get_dummy_func("", &names, prefix.as_str())
    }
}

proof fn lemma_sub_at_prepend(a: Seq<char>, b: Seq<char>, n: Seq<char>, i: int)
    requires
        sub_at(b, n, i),
    ensures
        sub_at(a + b, n, a.len() + i),
{
    assert((a + b).subrange(a.len() + i, a.len() + i + n.len()) =~= b.subrange(i, i + n.len()));
}

proof fn lemma_sub_at_append(a: Seq<char>, b: Seq<char>, n: Seq<char>, i: int)
    requires
        sub_at(a, n, i),
    ensures
        sub_at(a + b, n, i),
{
    assert((a + b).subrange(i, i + n.len()) =~= a.subrange(i, i + n.len()));
}

proof fn lemma_dummy_var_rest_len(names: Seq<Seq<char>>)
    ensures
        names.len() > 0 ==> dummy_var_rest(names).len() == 1 + dummy_var_lines(names).len(),
        names.len() == 0 ==> dummy_var_rest(names).len() == 0,
{
    reveal_strlit("\n");
    if names.len() > 0 {
        assert(dummy_var_rest(names) == "\n"@ + dummy_var_line(names[0]) + dummy_var_rest(
            names.drop_first(),
        ));
        assert(dummy_var_lines(names) == dummy_var_line(names[0]) + dummy_var_rest(
            names.drop_first(),
        ));
        assert("\n"@.len() == 1);
    }
}

/// Law: removing any single listed function strictly shortens the anchor's
/// XOR statements, so no function can be dropped without a textual change.
pub proof fn lemma_dummy_var_lines_shrink(names: Seq<Seq<char>>, k: int)
    requires
        0 <= k < names.len(),
    ensures
        dummy_var_lines(names.remove(k)).len() < dummy_var_lines(names).len(),
    decreases names.len(),
{
    reveal_strlit("    dummy_var ^= ((int64_t) (void*) ");
    reveal_strlit(");");
    reveal_strlit("\n");
    let rest = names.drop_first();
    if k == 0 {
        assert(names.remove(0) =~= rest);
        if names.len() > 1 {
            lemma_dummy_var_rest_len(rest);
        }
    } else {
        let sub = names.remove(k);
        assert(sub[0] == names[0]);
        assert(sub.drop_first() =~= rest.remove(k - 1));
        lemma_dummy_var_lines_shrink(rest, k - 1);
        lemma_dummy_var_rest_len(rest);
        lemma_dummy_var_rest_len(rest.remove(k - 1));
    }
}

/// Law: dropping any single exported wire function from the name list
/// changes the emitted anchor function, detectable as a text difference.
pub proof fn lemma_anchor_detects_dropped_function(
    api_block_name: Seq<char>,
    names: Seq<Seq<char>>,
    prefix: Seq<char>,
    k: int,
)
    requires
        0 <= k < names.len(),
    ensures
        dummy_func_text(api_block_name, names.remove(k), prefix) != dummy_func_text(
            api_block_name,
            names,
            prefix,
        ),
{
    lemma_dummy_var_lines_shrink(names, k);
    assert(dummy_func_text(api_block_name, names.remove(k), prefix).len() != dummy_func_text(
        api_block_name,
        names,
        prefix,
    ).len());
}

/// Law: the anchor body carries one XOR statement for every listed name.
pub proof fn lemma_dummy_var_lines_cover(names: Seq<Seq<char>>, j: int)
    requires
        0 <= j < names.len(),
    ensures
        contains_sub(dummy_var_lines(names), dummy_var_line(names[j])),
    decreases j,
{
    let rest = names.drop_first();
    if j == 0 {
        let line = dummy_var_line(names[0]);
        let whole = dummy_var_lines(names);
        assert(whole.subrange(0, line.len() as int) =~= line);
        assert(sub_at(whole, line, 0));
    } else {
        lemma_dummy_var_lines_cover(rest, j - 1);
        let needle = dummy_var_line(rest[j - 1]);
        let i = choose|i: int| sub_at(dummy_var_lines(rest), needle, i);
        let head = dummy_var_line(names[0]) + "\n"@;
        assert(dummy_var_lines(names) =~= head + dummy_var_lines(rest));
        lemma_sub_at_prepend(head, dummy_var_lines(rest), needle, i);
        assert(sub_at(dummy_var_lines(names), needle, head.len() + i));
    }
}

/// Law: the joined header-reference section carries the directive of every
/// listed unit.
pub proof fn lemma_header_refs_cover(from_dirs: Seq<Seq<char>>, units: Seq<Opts>, idx: int, j: int)
    requires
        0 <= j < units.len(),
    ensures
        contains_sub(
            header_refs_text(from_dirs, units, idx),
            unit_header_ref_text(from_dirs, units[j], idx),
        ),
    decreases j,
{
    let rest = units.drop_first();
    if j == 0 {
        let line = unit_header_ref_text(from_dirs, units[0], idx);
        let whole = header_refs_text(from_dirs, units, idx);
        assert(whole.subrange(0, line.len() as int) =~= line);
        assert(sub_at(whole, line, 0));
    } else {
        lemma_header_refs_cover(from_dirs, rest, idx, j - 1);
        let needle = unit_header_ref_text(from_dirs, rest[j - 1], idx);
        let i = choose|i: int| sub_at(header_refs_text(from_dirs, rest, idx), needle, i);
        let head = unit_header_ref_text(from_dirs, units[0], idx) + "\n"@;
        assert(header_refs_text(from_dirs, units, idx) =~= head + header_refs_text(
            from_dirs,
            rest,
            idx,
        ));
        lemma_sub_at_prepend(head, header_refs_text(from_dirs, rest, idx), needle, i);
        assert(sub_at(header_refs_text(from_dirs, units, idx), needle, head.len() + i));
    }
}

/// Law: with several generation units, the root unit's emitted anchor
/// section references every other unit's generated header, and its umbrella
/// anchor lists every unit's anchor-function signature — so linking the
/// root's translation unit alone transitively retains every unit's exported
/// symbols.
pub proof fn lemma_root_anchor_references_all(
    config: Opts,
    all_configs: Seq<Opts>,
    func_names: Seq<Seq<char>>,
    idx: int,
    j: int,
)
    requires
        all_configs.len() > 1,
        config.block_index == 0,
        0 <= j < all_configs.len(),
    ensures
        j >= 1 ==> contains_sub(
            generate_dummy_text(config, all_configs, func_names, idx),
            unit_header_ref_text(
                string_views(config.c_output_path@[idx].dirs@),
                all_configs[j],
                idx,
            ),
        ),
        contains_sub(
            generate_dummy_text(config, all_configs, func_names, idx),
            dummy_var_line(dummy_signature_text(all_configs[j].class_name@)),
        ),
{
    let from_dirs = string_views(config.c_output_path@[idx].dirs@);
    let names = prefixed_names(config.unique_id@, func_names);
    let basic = dummy_func_text(config.class_name@, names, config.unique_id@);
    let headers = header_refs_text(from_dirs, all_configs.skip(1), idx);
    let sigs = Seq::new(all_configs.len(), |i: int| dummy_signature_text(all_configs[i].class_name@));
    let umbrella = dummy_func_text(Seq::empty(), sigs, config.unique_id@);
    let whole = generate_dummy_text(config, all_configs, func_names, idx);
    assert(whole == basic + "\n"@ + headers + "\n"@ + umbrella);
    if j >= 1 {
        let others = all_configs.skip(1);
        assert(others[j - 1] == all_configs[j]);
        lemma_header_refs_cover(from_dirs, others, idx, j - 1);
        let needle = unit_header_ref_text(from_dirs, all_configs[j], idx);
        let i = choose|i: int| sub_at(headers, needle, i);
        lemma_sub_at_prepend(basic + "\n"@, headers, needle, i);
        lemma_sub_at_append((basic + "\n"@) + headers, "\n"@ + umbrella, needle, (basic
            + "\n"@).len() + i);
        assert(whole =~= ((basic + "\n"@) + headers) + ("\n"@ + umbrella));
    }
    let sig_needle = dummy_var_line(sigs[j]);
    lemma_dummy_var_lines_cover(sigs, j);
    let i2 = choose|i: int| sub_at(dummy_var_lines(sigs), sig_needle, i);
    let head = "static int64_t "@ + config.unique_id@ + dummy_signature_text(Seq::empty())
        + "(void) {\n    int64_t dummy_var = 0;\n"@;
    let tail = "\n    return dummy_var;\n}\n"@;
    assert(umbrella =~= (head + dummy_var_lines(sigs)) + tail);
    lemma_sub_at_prepend(head, dummy_var_lines(sigs), sig_needle, i2);
    lemma_sub_at_append(head + dummy_var_lines(sigs), tail, sig_needle, head.len() + i2);
    let front = basic + "\n"@ + headers + "\n"@;
    lemma_sub_at_prepend(front, umbrella, sig_needle, head.len() + i2);
    assert(sigs[j] == dummy_signature_text(all_configs[j].class_name@));
}

} // verus!
