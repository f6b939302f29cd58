//! Record, protected and alias resolution; the declarative-region close
//! checks; and determinism of the analysis.

use hdl_resolve::analyze::analyze_design;
use hdl_resolve::decl::{
    AnyDeclaration, DeclForm, TypeData, TypeDetail, TypeKind, VisibleDeclaration,
};
use hdl_resolve::designator::Designator;
use hdl_resolve::diag::{Diagnostic, Pos, Severity};
use hdl_resolve::reference::RootIndex;
use hdl_resolve::region::{lookup_selected, lookup_within, Region};

struct Span {
    start: usize,
    end: usize,
}

impl Span {
    fn pos(&self) -> Pos {
        Pos { start: self.start, end: self.end }
    }

    fn end(&self) -> usize {
        self.end
    }

    /// The span of the first character alone: the designator span of a
    /// one-letter name found through a longer needle.
    fn pos_of_first_char(&self) -> Pos {
        Pos { start: self.start, end: self.start + 1 }
    }
}

struct Code {
    text: String,
}

impl Code {
    fn new(text: &str) -> Code {
        Code { text: text.to_string() }
    }

    fn s(&self, needle: &str, occurrence: usize) -> Span {
        let mut from = 0;
        let mut count = 0;
        while let Some(i) = self.text[from..].find(needle) {
            let at = from + i;
            count += 1;
            if count == occurrence {
                return Span { start: at, end: at + needle.len() };
            }
            from = at + 1;
        }
        panic!("occurrence {} of {:?} not found", occurrence, needle);
    }

    fn s1(&self, needle: &str) -> Span {
        self.s(needle, 1)
    }
}

fn run(code: &str) -> (RootIndex, Vec<Diagnostic>) {
    let bytes: Vec<u8> = code.as_bytes().to_vec();
    analyze_design(&bytes, "libname")
}

fn show(d: &Diagnostic) -> String {
    format!(
        "{}..{} {:?} {} (related: {})",
        d.pos.start,
        d.pos.end,
        d.severity,
        String::from_utf8_lossy(&d.message),
        d.related
            .iter()
            .map(|r| format!(
                "{}..{} {}",
                r.pos.start,
                r.pos.end,
                String::from_utf8_lossy(&r.message)
            ))
            .collect::<Vec<_>>()
            .join("; "),
    )
}

type DiagKey = (usize, usize, u8, Vec<u8>, Vec<(usize, usize, Vec<u8>)>);

fn diag_key(d: &Diagnostic) -> DiagKey {
    let sev = match d.severity {
        Severity::Error => 0,
        Severity::Hint => 1,
    };
    let rel = d
        .related
        .iter()
        .map(|r| (r.pos.start, r.pos.end, r.message.clone()))
        .collect();
    (d.pos.start, d.pos.end, sev, d.message.clone(), rel)
}

fn check_diagnostics(actual: Vec<Diagnostic>, expected: Vec<Diagnostic>) {
    let mut a: Vec<DiagKey> = actual.iter().map(diag_key).collect();
    let mut e: Vec<DiagKey> = expected.iter().map(diag_key).collect();
    a.sort();
    e.sort();
    if a != e {
        panic!(
            "diagnostics differ\nactual:\n  {}\nexpected:\n  {}",
            actual.iter().map(show).collect::<Vec<_>>().join("\n  "),
            expected.iter().map(show).collect::<Vec<_>>().join("\n  "),
        );
    }
}

fn check_no_diagnostics(diagnostics: &[Diagnostic]) {
    if !diagnostics.is_empty() {
        panic!(
            "unexpected diagnostics:\n  {}",
            diagnostics.iter().map(show).collect::<Vec<_>>().join("\n  "),
        );
    }
}

fn check_code_with_no_diagnostics(code: &str) {
    let (_root, diagnostics) = run(code);
    check_no_diagnostics(&diagnostics);
}

fn missing(code: &Code, name: &str, occurrence: usize) -> Diagnostic {
    Diagnostic::error(
        code.s(name, occurrence).pos(),
        &format!("No declaration of '{}'", name),
    )
}

fn assert_eq_unordered(actual: &[Pos], expected: &[Pos]) {
    let mut a: Vec<(usize, usize)> = actual.iter().map(|p| (p.start, p.end)).collect();
    let mut e: Vec<(usize, usize)> = expected.iter().map(|p| (p.start, p.end)).collect();
    a.sort();
    e.sort();
    assert_eq!(a, e);
}

fn in_declarative_region(decls: &str) -> Code {
    Code::new(&format!("package pkg is\n{}\nend package;", decls))
}

#[test]
fn resolves_names_in_object_decl_init_expressions() {
    let code = Code::new(
        "
package pkg is
  constant c0 : natural := 0;
  constant c1 : natural := c0;
  constant c2 : natural := missing;
  constant c3 : natural := 1 + missing;
  constant c4 : natural := - missing;
end package;",
    );

    let (root, diagnostics) = run(&code.text);
    check_diagnostics(
        diagnostics,
        (1..=3).map(|idx| missing(&code, "missing", idx)).collect(),
    );

    // Goto declaration from declaration
    assert_eq!(
        root.search_reference(code.s("c0", 1).end()),
        Some(code.s("c0", 1).pos())
    );

    // Goto declaration from reference
    assert_eq!(
        root.search_reference(code.s("c0", 2).end()),
        Some(code.s("c0", 1).pos())
    );
}

/// Check that at least the prefix is resolved also for names which are not purely selected names
#[test]
fn resolves_names_for_prefix_of_non_selected() {
    let code = Code::new(
        "
package pkg is
  type arr_t is array (natural range 0 to 1) of integer_vector(0 to 1);
  constant c0 : integer_vector(0 to 1) := (0,1);
  constant c1 : natural := c0(0);
  constant c2 : natural := missing(0);
  constant c3 : integer_vector(0 to 1) := c0(0 to 1);
  constant c4 : integer_vector(0 to 1) := missing(0 to 1);
  constant c5 : arr_t := (0 => (0,1), 1 => (2, 3));

  -- This was a bug at one point
  constant c6 : natural := c5(0)'length;
  constant c7 : natural := missing(0)'length;

  -- This was also a bug at one point
  type rec_t is record
      field : natural;
  end record;
  type rec_arr_t is array (natural range <>) of rec_t;
  constant c8 : rec_arr_t(0 to 0) := (0 => (field => 0));
  constant c9 : natural := c8(0).field;
  constant ca : natural := missing(0).field;
  constant cb : rec_t := (field => 0);
  constant cc : natural := cb.field;
  constant cd : natural := missing.field;

end package;",
    );

    let (root, diagnostics) = run(&code.text);
    check_diagnostics(
        diagnostics,
        (1..=5).map(|idx| missing(&code, "missing", idx)).collect(),
    );

    // Goto declaration from reference that is prefix of indexed/function call
    assert_eq!(
        root.search_reference(code.s("c0", 2).end()),
        Some(code.s("c0", 1).pos())
    );

    // Goto declaration from reference that is prefix of slice
    assert_eq!(
        root.search_reference(code.s("c0", 3).end()),
        Some(code.s("c0", 1).pos())
    );
}

#[test]
fn labels_are_visible() {
    let code = Code::new(
        "
entity ent is
end entity;

architecture a of ent is
begin
  lab1 : process
     constant name1 : string := lab1'instance_name;
     constant dummy : string := missing'instance_name;
  begin
  end process;

  lab2 : block is
     constant name1 : string := lab1'instance_name;
     constant name2 : string := lab2'instance_name;
     constant dummy : string := missing'instance_name;
  begin
  end block;
end architecture;
",
    );

    let (root, diagnostics) = run(&code.text);
    check_diagnostics(
        diagnostics,
        (1..=2).map(|idx| missing(&code, "missing", idx)).collect(),
    );

    for i in 1..=3 {
        assert_eq!(
            root.search_reference(code.s("lab1", i).end()),
            Some(code.s("lab1", 1).pos())
        );
    }

    for i in 1..=2 {
        assert_eq!(
            root.search_reference(code.s("lab2", i).end()),
            Some(code.s("lab2", 1).pos())
        );
    }
}

#[test]
fn error_on_signature_for_non_overloaded_alias() {
    let code = Code::new(
        "
package pkg is
  type enum_t is (alpha, beta);
  alias alias_t is enum_t[return integer];
end package;
",
    );

    let (_root, diagnostics) = run(&code.text);
    check_diagnostics(
        diagnostics,
        vec![Diagnostic::error(
            code.s1("[return integer]").pos(),
            "Alias should only have a signature for subprograms and enum literals",
        )],
    );
}

#[test]
fn error_on_non_signature_for_overloaded_alias() {
    let code = Code::new(
        "
package pkg is
end package;

package body pkg is
  procedure subpgm(arg: natural) is
  begin
  end;

  alias alias_t is subpgm;
end package body;
",
    );

    let (_root, diagnostics) = run(&code.text);
    check_diagnostics(
        diagnostics,
        vec![Diagnostic::error(
            code.s("subpgm", 2).pos(),
            "Signature required for alias of subprogram and enum literals",
        )],
    );
}

#[test]
fn overloaded_name_can_be_selected() {
    check_code_with_no_diagnostics(
        "
package pkg is
end package;

package body pkg is
  type rec_t is record
    f : natural;
  end record;

  function foo return rec_t is
    variable t : rec_t;
  begin
    return t;
  end function;

  procedure bar is
    variable s : natural;
  begin
    s := foo.f;
  end;
end package body;
",
    );
}

#[test]
fn record_fields_are_resolved() {
    let code = Code::new(
        "
package pkg is

  type rec2_t is record
    field2 : natural;
  end record;

  type rec1_t is record
    field1 : rec2_t;
  end record;

  constant rec_val : rec1_t := (field1 => (field2 => 0));
  alias rec_alias is rec_val;

  -- Good
  constant a : rec2_t := rec_val.field1;
  constant b : natural := rec_val.field1.field2;
  constant c : rec2_t := rec_alias.field1;
  constant d : natural := rec_alias.field1.field2;

  -- Bad
  constant e : natural := rec_val.missing;
  constant f : natural := rec_val.field1.missing;
  constant g : natural := rec_alias.missing;
  constant h : natural := rec_alias.field1.missing;
end package;
",
    );

    let (_root, diagnostics) = run(&code.text);
    check_diagnostics(
        diagnostics,
        vec![
            Diagnostic::error(
                code.s("missing", 1).pos(),
                "No declaration of 'missing' within record type 'rec1_t'",
            ),
            Diagnostic::error(
                code.s("missing", 2).pos(),
                "No declaration of 'missing' within record type 'rec2_t'",
            ),
            Diagnostic::error(
                code.s("missing", 3).pos(),
                "No declaration of 'missing' within record type 'rec1_t'",
            ),
            Diagnostic::error(
                code.s("missing", 4).pos(),
                "No declaration of 'missing' within record type 'rec2_t'",
            ),
        ],
    );
}

#[test]
fn find_all_references_of_record_field() {
    let code = Code::new(
        "
entity ent is
end entity;

architecture a of ent is
  type rec_t is record
    field : natural;
  end record;

  signal sig : rec_t;
begin
  sig.field <= 1;
end architecture;",
    );

    let (root, diagnostics) = run(&code.text);
    check_no_diagnostics(&diagnostics);

    let references = vec![code.s("field", 1).pos(), code.s("field", 2).pos()];

    assert_eq_unordered(
        &root.find_all_references(code.s1("field").pos()),
        &references,
    );
}

#[test]
fn record_subtype_can_be_selected() {
    let code = Code::new(
        "
package pkg is
end package;

package body pkg is
  type rec_t is record
    elem : integer_vector;
  end record;

  subtype sub_t is rec_t(elem(0 to 1));

  constant const1 : sub_t := (elem => (0, 1));

  -- Ok
  constant const2 : integer := const1.elem(0);

  -- Not ok
  constant const3 : integer := const1.missing;

end package body;
",
    );

    let (_root, diagnostics) = run(&code.text);
    check_diagnostics(
        diagnostics,
        vec![Diagnostic::error(
            code.s("missing", 1).pos(),
            "No declaration of 'missing' within record type 'rec_t'",
        )],
    );
}

#[test]
fn acccess_type_of_record_can_be_selected() {
    let code = Code::new(
        "
entity ent is
end;

architecture a of ent is
  type rec_t is record
    elem : integer_vector;
  end record;

  type rec_access_t is access rec_t;
begin

  main : process
      variable avar : rec_access_t := new rec_access_t'(elem => 0);
      variable v : natural;
  begin
     -- Ok
     v := avar.elem;
     -- Not ok
     v := avar.missing;
  end process;

end architecture;
",
    );

    let (_root, diagnostics) = run(&code.text);
    check_diagnostics(
        diagnostics,
        vec![Diagnostic::error(
            code.s("missing", 1).pos(),
            "No declaration of 'missing' within record type 'rec_t'",
        )],
    );
}

#[test]
fn protected_type_can_be_selected() {
    let code = Code::new(
        "
entity ent is
end;

architecture a of ent is
  type prot_t is protected
    function foo return natural;
  end protected;

  type prot_t is protected body
    function foo return natural is
    begin
      return 0;
    end;
  end protected body;

  shared variable pvar : prot_t;
begin

  main : process
      variable v : natural;
  begin
     -- Ok
     v := pvar.foo;

     -- Not ok
     v := pvar.missing;
  end process;

end architecture;
",
    );

    let (_root, diagnostics) = run(&code.text);
    check_diagnostics(
        diagnostics,
        vec![Diagnostic::error(
            code.s("missing", 1).pos(),
            "No declaration of 'missing' within protected type 'prot_t'",
        )],
    );
}

#[test]
fn incomplete_acccess_type_of_record_can_be_selected() {
    let code = Code::new(
        "
entity ent is
end;

architecture a of ent is

  type rec_t;
  type rec_access_t is access rec_t;

  type rec_t is record
    elem : natural;
    child : rec_access_t;
  end record;

begin

  main : process
      variable rvar : rec_t := (elem => 0, child => null);
      variable v : natural;
  begin
     -- Ok
     v := rvar.elem;
     v := rvar.child.elem;
     -- Not ok
     v := rvar.missing;
     v := rvar.child.missing;
  end process;

end architecture;
",
    );

    let (_root, diagnostics) = run(&code.text);
    check_diagnostics(
        diagnostics,
        vec![
            Diagnostic::error(
                code.s("missing", 1).pos(),
                "No declaration of 'missing' within record type 'rec_t'",
            ),
            Diagnostic::error(
                code.s("missing", 2).pos(),
                "No declaration of 'missing' within record type 'rec_t'",
            ),
        ],
    );
}

#[test]
fn test_indexed_array_dimension_check() {
    let code = in_declarative_region(
        "
type arr1_t is array (0 to 1) of natural;
type arr2_t is array (0 to 1, 0 to 1) of natural;
constant foo1 : arr1_t := (0, 1);
constant foo2 : arr2_t := ((0, 1), (2, 3));

constant bar1 : natural := foo1(0);
constant bar2 : natural := foo1(0, 1);
constant bar3 : natural := foo2(0);
constant bar4 : natural := foo2(0, 1);
        ",
    );

    let (_root, diagnostics) = run(&code.text);
    let mut expected1 = Diagnostic::error(
        code.s("foo1(0, 1)", 1).pos(),
        "Number of indexes does not match array dimension",
    );
    expected1.add_related(
        code.s("arr1_t", 1).pos(),
        "Array type 'arr1_t' has 1 dimension, got 2 indexes",
    );
    let mut expected2 = Diagnostic::error(
        code.s("foo2(0)", 1).pos(),
        "Number of indexes does not match array dimension",
    );
    expected2.add_related(
        code.s("arr2_t", 1).pos(),
        "Array type 'arr2_t' has 2 dimensions, got 1 index",
    );
    check_diagnostics(diagnostics, vec![expected1, expected2]);
}

#[test]
fn deferred_constant_without_body_is_reported() {
    let code = Code::new(
        "
package pkg is
  constant k : natural;
end package;
",
    );

    let (_root, diagnostics) = run(&code.text);
    check_diagnostics(
        diagnostics,
        vec![Diagnostic::error(
            code.s("k :", 1).pos_of_first_char(),
            "Deferred constant 'k' lacks corresponding full constant declaration in package body",
        )],
    );
}

#[test]
fn deferred_constant_completed_in_body_is_accepted() {
    check_code_with_no_diagnostics(
        "
package pkg is
  constant k : natural;
end package;

package body pkg is
  constant k : natural := 0;
end package body;
",
    );
}

#[test]
fn deferred_constant_not_completed_in_body_is_reported() {
    let code = Code::new(
        "
package pkg is
  constant k : natural;
end package;

package body pkg is
end package body;
",
    );

    let (_root, diagnostics) = run(&code.text);
    check_diagnostics(
        diagnostics,
        vec![Diagnostic::error(
            code.s("k :", 1).pos_of_first_char(),
            "Deferred constant 'k' lacks corresponding full constant declaration in package body",
        )],
    );
}

#[test]
fn deferred_constant_outside_package_is_reported() {
    let code = Code::new(
        "
entity ent is
end entity;

architecture a of ent is
  constant k : natural;
begin
end architecture;
",
    );

    let (_root, diagnostics) = run(&code.text);
    check_diagnostics(
        diagnostics,
        vec![Diagnostic::error(
            code.s("k :", 1).pos_of_first_char(),
            "Deferred constants are only allowed in package declarations (not body)",
        )],
    );
}

#[test]
fn full_constant_of_deferred_outside_body_is_reported() {
    let code = Code::new(
        "
package pkg is
  constant k : natural;
  constant k : natural := 0;
end package;
",
    );

    let (_root, diagnostics) = run(&code.text);
    check_diagnostics(
        diagnostics,
        vec![
            Diagnostic::error(
                code.s("k :", 2).pos_of_first_char(),
                "Full declaration of deferred constant is only allowed in a package body",
            ),
            Diagnostic::error(
                code.s("k :", 1).pos_of_first_char(),
                "Deferred constant 'k' lacks corresponding full constant declaration in package body",
            ),
        ],
    );
}

#[test]
fn duplicate_declaration_is_reported() {
    let code = Code::new(
        "
package pkg is
  constant c1 : natural := 0;
  constant c1 : natural := 1;
end package;
",
    );

    let (_root, diagnostics) = run(&code.text);
    let mut expected = Diagnostic::error(
        code.s("c1", 2).pos(),
        "Duplicate declaration of 'c1'",
    );
    expected.add_related(code.s("c1", 1).pos(), "Previously defined here");
    check_diagnostics(diagnostics, vec![expected]);
}

#[test]
fn incomplete_type_without_full_declaration_is_reported() {
    let code = Code::new(
        "
package pkg is
  type rec_t;
end package;
",
    );

    let (_root, diagnostics) = run(&code.text);
    check_diagnostics(
        diagnostics,
        vec![
            Diagnostic::error(
                code.s("rec_t", 1).pos(),
                "Missing full type declaration of incomplete type 'rec_t'",
            ),
            Diagnostic::hint(
                code.s("rec_t", 1).pos(),
                "The full type declaration shall occur immediately within the same declarative part",
            ),
        ],
    );
}

#[test]
fn protected_type_without_body_is_reported() {
    let code = Code::new(
        "
entity ent is
end entity;

architecture a of ent is
  type prot_t is protected
    function foo return natural;
  end protected;
begin
end architecture;
",
    );

    let (_root, diagnostics) = run(&code.text);
    check_diagnostics(
        diagnostics,
        vec![Diagnostic::error(
            code.s("prot_t", 1).pos(),
            "Missing body for protected type 'prot_t'",
        )],
    );
}

#[test]
fn enum_literals_become_visible_with_their_type() {
    check_code_with_no_diagnostics(
        "
package pkg is
  type col_t is (red, green);
end package;

use work.pkg.col_t;

package user is
  constant c : col_t := red;
end package;
",
    );
}

#[test]
fn malformed_source_is_reported() {
    let code = Code::new("package ;");
    let (_root, diagnostics) = run(&code.text);
    assert_eq!(diagnostics.len(), 1);
    assert_eq!(diagnostics[0].message, b"Syntax error".to_vec());
}

#[test]
fn analysis_is_deterministic() {
    let code = "
package pkg is
  type rec_t is record
    field : natural;
  end record;
  constant c0 : natural := 0;
  constant c1 : natural := missing;
  constant r : rec_t := (field => 0);
  constant f : natural := r.field;
end package;

package body pkg is
  constant k : natural := c0;
end package body;
";
    let (root1, diags1) = run(code);
    let (root2, diags2) = run(code);
    let keys1: Vec<DiagKey> = diags1.iter().map(diag_key).collect();
    let keys2: Vec<DiagKey> = diags2.iter().map(diag_key).collect();
    assert_eq!(keys1, keys2);
    let entries1: Vec<(usize, usize, Option<(usize, usize)>)> = root1
        .table
        .entries
        .iter()
        .map(|e| (e.occ.start, e.occ.end, e.target.map(|p| (p.start, p.end))))
        .collect();
    let entries2: Vec<(usize, usize, Option<(usize, usize)>)> = root2
        .table
        .entries
        .iter()
        .map(|e| (e.occ.start, e.occ.end, e.target.map(|p| (p.start, p.end))))
        .collect();
    assert_eq!(entries1, entries2);
}

#[test]
fn search_reference_away_from_names_finds_nothing() {
    let code = Code::new(
        "
package pkg is
  constant c0 : natural := 0;
end package;
",
    );
    let (root, diagnostics) = run(&code.text);
    check_no_diagnostics(&diagnostics);
    assert_eq!(root.search_reference(0), None);
    let nowhere = Pos { start: 0, end: 1 };
    assert!(root.find_all_references(nowhere).is_empty());
}

#[test]
fn test_unique_function_typecheck() {
    let code = in_declarative_region(
        "
function fun1 return natural is
begin
    return 0;
end function;

function fun1 return boolean is
begin
    return 0;
end function;

constant good : integer := fun1;
constant bad : character := fun1;
        ",
    );

    let (root, diagnostics) = run(&code.text);
    let mut expected = Diagnostic::error(code.s("fun1", 4).pos(), "Could not resolve 'fun1'");
    expected.add_related(code.s("fun1", 1).pos(), "Does not match fun1[return NATURAL]");
    expected.add_related(code.s("fun1", 2).pos(), "Does not match fun1[return BOOLEAN]");
    check_diagnostics(diagnostics, vec![expected]);

    assert_eq!(
        root.search_reference(code.s1(":= fun1").end()),
        Some(code.s1("fun1").pos())
    );
}

#[test]
fn test_unique_function_default_arg_typecheck() {
    let code = in_declarative_region(
        "
function fun1(arg : natural := 0) return natural is
begin
    return 0;
end function;

function fun1 return boolean is
begin
    return 0;
end function;

constant good : integer := fun1;
constant bad : character := fun1;
        ",
    );

    let (_root, diagnostics) = run(&code.text);
    let mut expected = Diagnostic::error(code.s("fun1", 4).pos(), "Could not resolve 'fun1'");
    expected.add_related(
        code.s("fun1", 1).pos(),
        "Does not match fun1[NATURAL return NATURAL]",
    );
    expected.add_related(code.s("fun1", 2).pos(), "Does not match fun1[return BOOLEAN]");
    check_diagnostics(diagnostics, vec![expected]);
}

#[test]
fn test_ambiguous_function_default_arg_typecheck() {
    let code = in_declarative_region(
        "
function fun1(arg : natural := 0) return natural is
begin
    return 0;
end function;

function fun1(arg : boolean := false) return natural is
begin
    return 0;
end function;

-- Do not consider this as ambiguous
function fun1(arg : character) return natural is
begin
    return 0;
end function;

constant bad: integer := fun1;
        ",
    );

    let (_root, diagnostics) = run(&code.text);
    let mut expected = Diagnostic::error(code.s("fun1", 4).pos(), "Ambiguous use of 'fun1'");
    expected.add_related(code.s("fun1", 1).pos(), "Migth be fun1[NATURAL return NATURAL]");
    expected.add_related(code.s("fun1", 2).pos(), "Migth be fun1[BOOLEAN return NATURAL]");
    check_diagnostics(diagnostics, vec![expected]);
}

#[test]
fn can_goto_declaration_of_alias_with_signature() {
    let code = Code::new(
        "
package pkg is
end package;

package body pkg is
  function subpgm(arg: natural) return natural is
  begin
  end;

  function subpgm(arg: boolean) return boolean is
  begin
  end;

  alias alias1 is subpgm[boolean, return boolean];
  alias alias2 is subpgm[integer, return integer];
end package body;
",
    );

    let (root, diagnostics) = run(&code.text);
    check_no_diagnostics(&diagnostics);

    // Goto declaration from declaration
    assert_eq!(
        root.search_reference(code.s("subpgm", 3).end()),
        Some(code.s("subpgm", 2).pos())
    );

    assert_eq!(
        root.search_reference(code.s("subpgm", 4).end()),
        Some(code.s("subpgm", 1).pos())
    );
}

#[test]
fn test_disambiguates_indexed_name_and_function_call() {
    let code = in_declarative_region(
        "
constant foo : natural := 0;
constant bar : natural := foo(arg => 0);
        ",
    );

    let (_root, diagnostics) = run(&code.text);
    check_diagnostics(
        diagnostics,
        vec![Diagnostic::error(
            code.s("foo", 2).pos(),
            "constant 'foo' cannot be the prefix of a function call",
        )],
    );
}

#[test]
fn selected_lookup_ignores_the_visible_plane_and_parents() {
    // region 0 declares x; region 1 extends nothing, has region 0 as its
    // parent and x only in its visible plane
    let x = || Designator::new(b"x".to_vec());
    let pos = Pos { start: 1, end: 2 };
    let mut diags: Vec<Diagnostic> = Vec::new();
    let mut r0 = Region::default();
    r0.add(x(), pos, AnyDeclaration::Constant, None, &mut diags);
    let mut r1 = Region::nested(0);
    r1.insert_visible(VisibleDeclaration::new(x(), pos, AnyDeclaration::Constant));
    assert!(diags.is_empty());
    let arena = vec![r0, r1];

    // unqualified lookup from region 1 sees x through both planes
    assert!(lookup_within(&arena, 1, &x()).is_some());
    // selected lookup into region 1 sees neither the visible plane nor the
    // parent's declarations
    assert!(lookup_selected(&arena, 1, &x()).is_none());
    // selected lookup into region 0 sees the declaration
    assert!(lookup_selected(&arena, 0, &x()).is_some());
}

#[test]
fn completion_pairs_share_one_bucket() {
    let t = || Designator::new(b"t".to_vec());
    let mut diags: Vec<Diagnostic> = Vec::new();
    let mut r = Region::default();
    r.add(
        t(),
        Pos { start: 1, end: 2 },
        AnyDeclaration::IncompleteType,
        None,
        &mut diags,
    );
    r.add(
        t(),
        Pos { start: 5, end: 6 },
        AnyDeclaration::TypeDeclaration(TypeData {
            implicit: None,
            detail: TypeDetail::Plain,
            base: None,
            form: DeclForm::FormType,
            kind: TypeKind::OtherKind,
        }),
        None,
        &mut diags,
    );
    // the full type completes the incomplete one: no duplicate is reported
    assert!(diags.is_empty());
    // a third, unrelated declaration under the same designator duplicates
    r.add(
        t(),
        Pos { start: 9, end: 10 },
        AnyDeclaration::Constant,
        None,
        &mut diags,
    );
    assert_eq!(diags.len(), 1);
    assert_eq!(
        String::from_utf8_lossy(&diags[0].message),
        "Duplicate declaration of 't'"
    );
}

#[test]
fn test_name_can_be_indexed() {
    let code = in_declarative_region(
        "
constant foo : natural := 0;
constant bar : natural := foo(0);
        ",
    );

    let (_root, diagnostics) = run(&code.text);
    check_diagnostics(
        diagnostics,
        vec![Diagnostic::error(
            code.s("foo", 2).pos(),
            "subtype 'NATURAL' cannot be indexed",
        )],
    );
}

#[test]
fn test_name_can_be_sliced() {
    let code = in_declarative_region(
        "
constant foo : natural := 0;
constant bar : natural := foo(0 to 0);
        ",
    );

    let (_root, diagnostics) = run(&code.text);
    check_diagnostics(
        diagnostics,
        vec![Diagnostic::error(
            code.s("foo", 2).pos(),
            "subtype 'NATURAL' cannot be sliced",
        )],
    );
}

#[test]
fn test_access_type_can_be_indexed() {
    let code = in_declarative_region(
        "
type arr_t is array (0 to 1) of natural;
type access_t is access arr_t;

procedure proc is
   variable myvar : access_t;
   variable foo : natural;
begin
    foo := myvar(0);
end procedure;
        ",
    );

    let (_root, diagnostics) = run(&code.text);
    check_no_diagnostics(&diagnostics);
}

#[test]
fn test_type_conversion() {
    let code = in_declarative_region(
        "
  constant foo : natural := natural(0);
        ",
    );

    let (_root, diagnostics) = run(&code.text);
    check_no_diagnostics(&diagnostics);
}

#[test]
fn test_integer_literal_expression_typecheck() {
    let code = in_declarative_region(
        "
constant good_a : integer := 1;
constant good_b : natural := 2;

constant bad_a : boolean := 3;

subtype my_bool is boolean;
constant bad_b : my_bool := 4;

        ",
    );

    let (_root, diagnostics) = run(&code.text);
    check_diagnostics(
        diagnostics,
        vec![
            Diagnostic::error(
                code.s1("3").pos(),
                "integer literal does not match type 'BOOLEAN'",
            ),
            Diagnostic::error(
                code.s1("4").pos(),
                "integer literal does not match subtype 'my_bool'",
            ),
        ],
    );
}

#[test]
fn test_character_literal_expression() {
    let code = in_declarative_region(
        "
constant good : character := 'a';
constant bad : natural := 'b';
        ",
    );

    let (_root, diagnostics) = run(&code.text);
    check_diagnostics(
        diagnostics,
        vec![Diagnostic::error(
            code.s1("'b'").pos(),
            "character literal does not match subtype 'NATURAL'",
        )],
    );
}

#[test]
fn test_character_literal_expression_not_part_of_enum() {
    let code = in_declarative_region(
        "
type enum_t is ('a', 'b');
constant good : enum_t := 'a';
constant bad : enum_t := 'c';
        ",
    );

    let (_root, diagnostics) = run(&code.text);
    check_diagnostics(
        diagnostics,
        vec![Diagnostic::error(
            code.s1("'c'").pos(),
            "character literal does not match type 'enum_t'",
        )],
    );
}

#[test]
fn test_integer_literal_with_alias() {
    let code = in_declarative_region(
        "
alias alias_t is integer;
constant good : alias_t := 1;
constant bad : alias_t := false;
        ",
    );

    let (_root, diagnostics) = run(&code.text);
    check_diagnostics(
        diagnostics,
        vec![Diagnostic::error(
            code.s1("false").pos(),
            "'false' does not match alias 'alias_t'",
        )],
    );
}

#[test]
fn test_enum_literal_expression_typecheck() {
    let code = in_declarative_region(
        "
subtype my_bool is boolean;
constant good_a : boolean := true;
constant good_b : my_bool := false;

constant bad_a : integer := true;
constant bad_b : character := false;

        ",
    );

    let (_root, diagnostics) = run(&code.text);
    check_diagnostics(
        diagnostics,
        vec![
            Diagnostic::error(
                code.s("true", 2).pos(),
                "'true' does not match integer type 'INTEGER'",
            ),
            Diagnostic::error(
                code.s("false", 2).pos(),
                "'false' does not match type 'CHARACTER'",
            ),
        ],
    );
}

#[test]
fn check_null_literal() {
    let code = in_declarative_region(
        "
type ptr_t is access integer_vector;

procedure proc is
    variable good : ptr_t := null;
    variable bad : integer := null;
begin
end procedure;

",
    );
    let (_root, diagnostics) = run(&code.text);
    check_diagnostics(
        diagnostics,
        vec![Diagnostic::error(
            code.s("null", 2).pos(),
            "null literal does not match integer type 'INTEGER'",
        )],
    );
}

#[test]
fn test_physical_literal_expression_typecheck() {
    let code = in_declarative_region(
        "
constant good_a : time := ns;
constant good_b : time := 2 ps;
        ",
    );

    let (_root, diagnostics) = run(&code.text);
    check_no_diagnostics(&diagnostics);
}

#[test]
fn check_real_vs_integer() {
    let code = in_declarative_region(
        "
constant rgood : real := 1.2;
constant rbad : real := 3;

constant igood : integer := 4;
constant ibad : integer := 5.6;

",
    );
    let (_root, diagnostics) = run(&code.text);
    check_diagnostics(
        diagnostics,
        vec![
            Diagnostic::error(
                code.s1("3").pos(),
                "integer literal does not match real type 'REAL'",
            ),
            Diagnostic::error(
                code.s1("5.6").pos(),
                "real literal does not match integer type 'INTEGER'",
            ),
        ],
    );
}

#[test]
fn test_string_literal_expression() {
    let code = in_declarative_region(
        "
signal good : string(1 to 3) := \"101\";
signal bad : natural := \"110\";
        ",
    );

    let (_root, diagnostics) = run(&code.text);
    check_diagnostics(
        diagnostics,
        vec![Diagnostic::error(
            code.s1("\"110\"").pos(),
            "string literal does not match subtype 'NATURAL'",
        )],
    )
}

#[test]
fn typecheck_aggregate() {
    let code = in_declarative_region(
        "
type rec_t is record
    field : natural;
end record;

constant good1 : integer_vector := (0, 1, 2);
constant good2 : rec_t := (others => 0);
constant bad1 : integer := (3, 4, 5);
        ",
    );

    let (_root, diagnostics) = run(&code.text);
    check_diagnostics(
        diagnostics,
        vec![Diagnostic::error(
            code.s1("(3, 4, 5)").pos(),
            "Composite does not match integer type 'INTEGER'",
        )],
    );
}
