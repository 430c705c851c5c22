//! A schema written out as Rust source.

use vstd::prelude::*;
use vstd::string::StringExecFns;

use crate::schema::case::{
    camel_case, camel_of, parts_of, pascal_case, pascal_of, snake_case, snake_of,
};
use crate::schema::{
    complete, find_id, Enum, Schema, SchemaM, SchemaType, SchemaTypes, Struct, Variant, VariantM,
};
use crate::text::str_eq;

verus! {

/// The character of a digit.
pub open spec fn digit(d: nat) -> char {
    ((0x30 + d) as u8) as char
}

/// The number `n` written in decimal digits.
pub open spec fn decimal_text(n: nat) -> Seq<char>
    decreases n,
{
    if n < 10 {
        seq![digit(n)]
    } else {
        decimal_text(n / 10).push(digit(n % 10))
    }
}

/// Writes the number `n` in decimal digits.
pub fn decimal(n: u64) -> (r: String)
    ensures
        r@ == decimal_text(n as nat),
    decreases n,
{
    if n < 10 {
        let mut out = String::new();
        let d: u8 = 0x30 + (n as u8);
        out.push(d as char);
        proof {
            assert(out@ =~= seq![digit(n as nat)]);
        }
        out
    } else {
        let mut out = decimal(n / 10);
        let d: u8 = 0x30 + ((n % 10) as u8);
        out.push(d as char);
        out
    }
}

/// The name of the struct with the number `id`.
pub open spec fn struct_name(id: u64) -> Seq<char> {
    "AutoGen"@ + decimal_text(id as nat) + "Struct"@
}

/// The name of the enum with the number `id`.
pub open spec fn enum_name(id: u64) -> Seq<char> {
    "AutoGen"@ + decimal_text(id as nat) + "Enum"@
}

/// The name of the struct with the number `id`.
pub fn auto_struct_name(id: u64) -> (r: String)
    ensures
        r@ == struct_name(id),
{
    let mut out = "AutoGen".to_owned();
    let digits = decimal(id);
    out.append(digits.as_str());
    out.append("Struct");
    out
}

/// The name of the enum with the number `id`.
pub fn auto_enum_name(id: u64) -> (r: String)
    ensures
        r@ == enum_name(id),
{
    let mut out = "AutoGen".to_owned();
    let digits = decimal(id);
    out.append(digits.as_str());
    out.append("Enum");
    out
}

/// A type of the schema as Rust writes it.
pub open spec fn types_text(t: SchemaTypes) -> Seq<char>
    decreases t, 0nat,
{
    match t {
        SchemaTypes::Unit => "()"@,
        SchemaTypes::Bool => "bool"@,
        SchemaTypes::U64 => "u64"@,
        SchemaTypes::I64 => "i64"@,
        SchemaTypes::Float => "f64"@,
        SchemaTypes::String => "String"@,
        SchemaTypes::Array(inner) => "Vec<"@ + type_text(*inner) + ">"@,
        SchemaTypes::Struct(id) => struct_name(id),
        SchemaTypes::Enum(id) => enum_name(id),
    }
}

/// A type of the schema as Rust writes it, in an `Option` where the value
/// can be `null`.
pub open spec fn type_text(t: SchemaType) -> Seq<char>
    decreases t, 1nat,
{
    if t.is_nullable {
        "Option<"@ + types_text(t.typ) + ">"@
    } else {
        types_text(t.typ)
    }
}

impl SchemaTypes {
    /// This type as Rust writes it.
    pub fn text(&self) -> (r: String)
        ensures
            r@ == types_text(*self),
        decreases self, 0nat,
    {
        match self {
            SchemaTypes::Unit => "()".to_owned(),
            SchemaTypes::Bool => "bool".to_owned(),
            SchemaTypes::U64 => "u64".to_owned(),
            SchemaTypes::I64 => "i64".to_owned(),
            SchemaTypes::Float => "f64".to_owned(),
            SchemaTypes::String => "String".to_owned(),
            SchemaTypes::Array(inner) => {
                let mut out = "Vec<".to_owned();
                let item = inner.text();
                out.append(item.as_str());
                out.append(">");
                out
            },
            SchemaTypes::Struct(id) => auto_struct_name(*id),
            SchemaTypes::Enum(id) => auto_enum_name(*id),
        }
    }
}

impl SchemaType {
    /// This type as Rust writes it.
    pub fn text(&self) -> (r: String)
        ensures
            r@ == type_text(*self),
        decreases self, 1nat,
    {
        if self.is_nullable {
            let mut out = "Option<".to_owned();
            let inner = self.typ.text();
            out.append(inner.as_str());
            out.append(">");
            out
        } else {
            self.typ.text()
        }
    }
}

/// How the names of the fields of a struct are written.
#[derive(Debug, Clone, Copy, PartialEq, Eq, Structural)]
pub enum Case {
    /// `camelCase`.
    Camel,
    /// `PascalCase`.
    Pascal,
    /// `snake_case`.
    Snake,
}

/// The name `s` written in the case `c`.
pub open spec fn case_apply(c: Case, s: Seq<char>) -> Seq<char> {
    match c {
        Case::Camel => camel_of(parts_of(s)),
        Case::Pascal => pascal_of(parts_of(s)),
        Case::Snake => snake_of(parts_of(s)),
    }
}

/// The word by which serde knows the case `c`.
pub open spec fn case_name(c: Case) -> Seq<char> {
    match c {
        Case::Camel => "camelCase"@,
        Case::Pascal => "PascalCase"@,
        Case::Snake => "snake_case"@,
    }
}

impl Case {
    /// The name `s` written in this case.
    pub fn apply(&self, s: &str) -> (r: String)
        ensures
            r@ == case_apply(*self, s@),
    {
        match self {
            Case::Camel => camel_case(s),
            Case::Pascal => pascal_case(s),
            Case::Snake => snake_case(s),
        }
    }

    /// The word by which serde knows this case.
    pub fn name(&self) -> (r: &'static str)
        ensures
            r@ == case_name(*self),
    {
        match self {
            Case::Camel => "camelCase",
            Case::Pascal => "PascalCase",
            Case::Snake => "snake_case",
        }
    }
}

/// The number of the first `n` fields whose name is written in the case
/// `c`.
pub open spec fn count_in_case<V>(fields: Seq<(Seq<char>, V)>, c: Case, n: nat) -> nat
    decreases n,
{
    if n == 0 || n > fields.len() {
        0
    } else if case_apply(c, fields[n - 1].0) == fields[n - 1].0 {
        count_in_case(fields, c, (n - 1) as nat) + 1
    } else {
        count_in_case(fields, c, (n - 1) as nat)
    }
}

/// The case in which most names of the fields are written: camel case
/// before Pascal case before snake case where as many are written in one as
/// in the other.
pub open spec fn detected_case<V>(fields: Seq<(Seq<char>, V)>) -> Case {
    let c = count_in_case(fields, Case::Camel, fields.len());
    let p = count_in_case(fields, Case::Pascal, fields.len());
    let s = count_in_case(fields, Case::Snake, fields.len());
    if c >= p && c >= s {
        Case::Camel
    } else if p >= s {
        Case::Pascal
    } else {
        Case::Snake
    }
}

/// The lines of a field of a struct: its name in snake case and its type,
/// and before them the name as the samples write it, where the case of the
/// struct does not give it back.
pub open spec fn field_text(c: Case, name: Seq<char>, t: SchemaType) -> Seq<char> {
    let rename = snake_of(parts_of(name));
    let first = if case_apply(c, rename) != name {
        "    #[serde(rename = \""@ + name + "\")]\n"@
    } else {
        Seq::empty()
    };
    first + "    "@ + rename + ": "@ + type_text(t) + ",\n"@
}

/// The lines of the first `n` fields of a struct.
pub open spec fn fields_text(fields: Seq<(Seq<char>, SchemaType)>, c: Case, n: nat) -> Seq<char>
    decreases n,
{
    if n == 0 || n > fields.len() {
        Seq::empty()
    } else {
        fields_text(fields, c, (n - 1) as nat) + field_text(c, fields[n - 1].0, fields[n - 1].1)
    }
}

/// The struct with the fields `fields` written out under the name
/// `title`.
pub open spec fn struct_text(fields: Seq<(Seq<char>, SchemaType)>, title: Seq<char>) -> Seq<
    char,
> {
    let c = detected_case(fields);
    "#[serde(rename_all = \""@ + case_name(c) + "\")]\n"@ + "pub struct "@ + title + " {\n"@
        + fields_text(fields, c, fields.len()) + "}\n"@
}

/// The lines of a field of a struct.
pub fn field_line(c: Case, name: &str, t: &SchemaType) -> (r: String)
    ensures
        r@ == field_text(c, name@, *t),
{
    let rename = snake_case(name);
    let back = c.apply(rename.as_str());
    let mut out = String::new();
    if !str_eq(back.as_str(), name) {
        out = "    #[serde(rename = \"".to_owned();
        out.append(name);
        out.append("\")]\n");
    }
    out.append("    ");
    out.append(rename.as_str());
    out.append(": ");
    let ty = t.text();
    out.append(ty.as_str());
    out.append(",\n");
    out
}

impl Struct {
    /// The case in which most names of the fields are written.
    pub fn detect_case(&self) -> (r: Case)
        ensures
            r == detected_case(self@),
    {
        let mut c: usize = 0;
        let mut p: usize = 0;
        let mut s: usize = 0;
        let mut i: usize = 0;
        let len: usize = self.len();
        while i < len
            invariant
                len == self@.len(),
                i <= len,
                c == count_in_case(self@, Case::Camel, i as nat),
                p == count_in_case(self@, Case::Pascal, i as nat),
                s == count_in_case(self@, Case::Snake, i as nat),
                c <= i,
                p <= i,
                s <= i,
            decreases len - i,
        {
            let k = self.name(i);
            let camel = camel_case(k);
            if str_eq(camel.as_str(), k) {
                c = c + 1;
            }
            let pascal = pascal_case(k);
            if str_eq(pascal.as_str(), k) {
                p = p + 1;
            }
            let snake = snake_case(k);
            if str_eq(snake.as_str(), k) {
                s = s + 1;
            }
            i = i + 1;
        }
        if c >= p && c >= s {
            Case::Camel
        } else if p >= s {
            Case::Pascal
        } else {
            Case::Snake
        }
    }

    /// This struct written out under the name `title`.
    pub fn print(&self, title: &str) -> (r: String)
        ensures
            r@ == struct_text(self@, title@),
    {
        let case = self.detect_case();
        let mut lines = String::new();
        let mut i: usize = 0;
        let len: usize = self.len();
        while i < len
            invariant
                len == self@.len(),
                i <= len,
                lines@ == fields_text(self@, case, i as nat),
            decreases len - i,
        {
            let line = field_line(case, self.name(i), self.field(i));
            lines.append(line.as_str());
            i = i + 1;
        }
        let mut out = "#[serde(rename_all = \"".to_owned();
        out.append(case.name());
        out.append("\")]\n");
        out.append("pub struct ");
        out.append(title);
        out.append(" {\n");
        out.append(lines.as_str());
        out.append("}\n");
        out
    }
}

/// The variant of an enum as Rust writes it, without what it holds: a name
/// of its own in Pascal case, and before it the name as the samples write it
/// where Pascal case changes it.
pub open spec fn variant_text(v: VariantM) -> Seq<char> {
    match v {
        VariantM::Primitive(s) => {
            let p = pascal_of(parts_of(s));
            let first = if s != p {
                "    #[serde(rename = \""@ + s + "\")]\n"@
            } else {
                Seq::empty()
            };
            first + "    "@ + p
        },
        VariantM::Struct(id) => "    "@ + struct_name(id),
        VariantM::Enum(id) => "    "@ + enum_name(id),
    }
}

/// The lines of a variant with the type that it holds; a variant that holds
/// the unit holds nothing.
pub open spec fn variant_line_text(v: VariantM, t: SchemaTypes) -> Seq<char> {
    match t {
        SchemaTypes::Unit => variant_text(v) + ",\n"@,
        _ => variant_text(v) + "("@ + types_text(t) + "),\n"@,
    }
}

/// The lines of the first `n` variants of an enum.
pub open spec fn variants_text(vs: Seq<(VariantM, SchemaTypes)>, n: nat) -> Seq<char>
    decreases n,
{
    if n == 0 || n > vs.len() {
        Seq::empty()
    } else {
        variants_text(vs, (n - 1) as nat) + variant_line_text(vs[n - 1].0, vs[n - 1].1)
    }
}

/// The enum with the variants `vs` written out under the name `title`.
pub open spec fn enum_text(vs: Seq<(VariantM, SchemaTypes)>, title: Seq<char>) -> Seq<char> {
    "pub enum "@ + title + " {\n"@ + variants_text(vs, vs.len()) + "}\n"@
}

impl Variant {
    /// This variant as Rust writes it, without what it holds.
    pub fn print(&self) -> (r: String)
        ensures
            r@ == variant_text(self@),
    {
        match self {
            Variant::Primitive(s) => {
                let v = pascal_case(s.as_str());
                let mut out = String::new();
                if !str_eq(s.as_str(), v.as_str()) {
                    out = "    #[serde(rename = \"".to_owned();
                    out.append(s.as_str());
                    out.append("\")]\n");
                }
                out.append("    ");
                out.append(v.as_str());
                out
            },
            Variant::Struct(id) => {
                let mut out = "    ".to_owned();
                let name = auto_struct_name(*id);
                out.append(name.as_str());
                out
            },
            Variant::Enum(id) => {
                let mut out = "    ".to_owned();
                let name = auto_enum_name(*id);
                out.append(name.as_str());
                out
            },
        }
    }
}

/// The lines of a variant with the type that it holds.
pub fn variant_line(v: &Variant, t: &SchemaTypes) -> (r: String)
    ensures
        r@ == variant_line_text(v@, *t),
{
    let mut out = v.print();
    match t {
        SchemaTypes::Unit => {
            out.append(",\n");
        },
        _ => {
            out.append("(");
            let ty = t.text();
            out.append(ty.as_str());
            out.append("),\n");
        },
    }
    out
}

impl Enum {
    /// This enum written out under the name `title`.
    pub fn print(&self, title: &str) -> (r: String)
        ensures
            r@ == enum_text(self@, title@),
    {
        let mut lines = String::new();
        let mut i: usize = 0;
        let len: usize = self.len();
        while i < len
            invariant
                len == self@.len(),
                i <= len,
                lines@ == variants_text(self@, i as nat),
            decreases len - i,
        {
            let line = variant_line(self.variant(i), self.held(i));
            lines.append(line.as_str());
            i = i + 1;
        }
        let mut out = "pub enum ".to_owned();
        out.append(title);
        out.append(" {\n");
        out.append(lines.as_str());
        out.append("}\n");
        out
    }
}

/// The line that every struct and enum of the schema starts with.
pub open spec fn derive_text() -> Seq<char> {
    "#[derive(Debug, Clone, PartialEq, Serialize, Deserialize)]\n"@
}

/// A struct of the schema with its number for a name, after an empty line;
/// nothing for the struct with the number 0, which is the root.
pub open spec fn struct_block(id: u64, fields: Seq<(Seq<char>, SchemaType)>) -> Seq<char> {
    if id > 0 {
        "\n"@ + derive_text() + struct_text(fields, struct_name(id))
    } else {
        Seq::empty()
    }
}

/// An enum of the schema with its number for a name, after an empty line;
/// nothing for the enum with the number 0, which is the root.
pub open spec fn enum_block(id: u64, vs: Seq<(VariantM, SchemaTypes)>) -> Seq<char> {
    if id > 0 {
        "\n"@ + derive_text() + enum_text(vs, enum_name(id))
    } else {
        Seq::empty()
    }
}

/// The first `n` structs of a schema written out.
pub open spec fn structs_text(structs: Seq<(u64, Seq<(Seq<char>, SchemaType)>)>, n: nat) -> Seq<
    char,
>
    decreases n,
{
    if n == 0 || n > structs.len() {
        Seq::empty()
    } else {
        structs_text(structs, (n - 1) as nat) + struct_block(structs[n - 1].0, structs[n - 1].1)
    }
}

/// The first `n` enums of a schema written out.
pub open spec fn enums_text(enums: Seq<(u64, Seq<(VariantM, SchemaTypes)>)>, n: nat) -> Seq<char>
    decreases n,
{
    if n == 0 || n > enums.len() {
        Seq::empty()
    } else {
        enums_text(enums, (n - 1) as nat) + enum_block(enums[n - 1].0, enums[n - 1].1)
    }
}

/// The schema written out as Rust source. A root that is a struct or an enum
/// comes first, under the name `Root`, and after it the other structs and
/// then the other enums, each in the order of the numbers. Any other root is
/// a struct `Root` around its type, and nothing follows it.
pub open spec fn schema_text(s: SchemaM) -> Seq<char> {
    if s.root.typ is Struct {
        derive_text() + struct_text(find_id(s.structs, 0).unwrap(), "Root"@) + structs_text(
            s.structs,
            s.structs.len(),
        ) + enums_text(s.enums, s.enums.len())
    } else if s.root.typ is Enum {
        derive_text() + enum_text(find_id(s.enums, 0).unwrap(), "Root"@) + structs_text(
            s.structs,
            s.structs.len(),
        ) + enums_text(s.enums, s.enums.len())
    } else {
        derive_text() + "pub struct Root("@ + type_text(s.root) + ")\n"@
    }
}

/// A struct of the schema with its number for a name.
pub fn struct_lines(id: u64, st: &Struct) -> (r: String)
    ensures
        r@ == struct_block(id, st@),
{
    if id > 0 {
        let mut out = "\n".to_owned();
        out.append("#[derive(Debug, Clone, PartialEq, Serialize, Deserialize)]\n");
        let name = auto_struct_name(id);
        let body = st.print(name.as_str());
        out.append(body.as_str());
        out
    } else {
        String::new()
    }
}

/// An enum of the schema with its number for a name.
pub fn enum_lines(id: u64, e: &Enum) -> (r: String)
    ensures
        r@ == enum_block(id, e@),
{
    if id > 0 {
        let mut out = "\n".to_owned();
        out.append("#[derive(Debug, Clone, PartialEq, Serialize, Deserialize)]\n");
        let name = auto_enum_name(id);
        let body = e.print(name.as_str());
        out.append(body.as_str());
        out
    } else {
        String::new()
    }
}

impl Schema {
    /// The structs and the enums of the schema written out, but for those
    /// with the number 0.
    fn print_rest(&self) -> (r: (String, String))
        ensures
            r.0@ == structs_text(self@.structs, self@.structs.len()),
            r.1@ == enums_text(self@.enums, self@.enums.len()),
    {
        let mut structs = String::new();
        let mut i: usize = 0;
        let count: usize = self.struct_count();
        while i < count
            invariant
                count == self@.structs.len(),
                i <= count,
                structs@ == structs_text(self@.structs, i as nat),
            decreases count - i,
        {
            let (id, st) = self.struct_at(i);
            let block = struct_lines(id, st);
            structs.append(block.as_str());
            i = i + 1;
        }
        let mut enums = String::new();
        let mut j: usize = 0;
        let total: usize = self.enum_count();
        while j < total
            invariant
                total == self@.enums.len(),
                j <= total,
                enums@ == enums_text(self@.enums, j as nat),
            decreases total - j,
        {
            let (id, e) = self.enum_at(j);
            let block = enum_lines(id, e);
            enums.append(block.as_str());
            j = j + 1;
        }
        (structs, enums)
    }

    /// The schema written out as Rust source.
    pub fn print(&self) -> (r: String)
        requires
            complete(self@),
        ensures
            r@ == schema_text(self@),
    {
        let mut out = "#[derive(Debug, Clone, PartialEq, Serialize, Deserialize)]\n".to_owned();
        if self.root().is_struct() {
            match self.find_struct(0) {
                Some(root) => {
                    let body = root.print("Root");
                    out.append(body.as_str());
                },
                None => {},
            }
        } else if self.root().is_enum() {
            match self.find_enum(0) {
                Some(root) => {
                    let body = root.print("Root");
                    out.append(body.as_str());
                },
                None => {},
            }
        } else {
            out.append("pub struct Root(");
            let ty = self.root().text();
            out.append(ty.as_str());
            out.append(")\n");
            return out;
        }
        let (structs, enums) = self.print_rest();
        out.append(structs.as_str());
        out.append(enums.as_str());
        out
    }
}

} // verus!
