//! The derivation registry and emitter: a forward-only sequence of named
//! color entries and comment markers, resolved by name and serialized in
//! insertion order.
//!
//! A name can be looked up only after the entry defining it was emitted;
//! looking up a name not yet defined is a hard failure.  Re-emitting a name
//! appends a second entry to the output; lookups keep resolving to the first
//! definition.

use vstd::prelude::*;

use crate::color::Color;
use crate::color::ColorView;
use crate::hex::rgba_hex;
use crate::errors::ThemeError;

verus! {

/// Mathematical image of a [`ThemeEntry`].
pub enum EntryView {
    Comment(Seq<char>),
    Definition(Seq<char>, ColorView),
}

/// One entry of the theme registry: a comment marker carrying a label, or a
/// named color definition.
pub enum ThemeEntry {
    Comment(String),
    Definition(String, Color),
}

impl View for ThemeEntry {
    type V = EntryView;

    open spec fn view(&self) -> EntryView {
        match self {
            ThemeEntry::Comment(l) => EntryView::Comment(l@),
            ThemeEntry::Definition(n, c) => EntryView::Definition(n@, c@),
        }
    }
}

/// The serialized form of one entry: comments render as a blank line
/// followed by `// <label>`; definitions as `<name>: #<8 hex digits>;`.
pub open spec fn render_entry(e: EntryView) -> Seq<char> {
    match e {
        EntryView::Comment(l) => seq!['\n', '/', '/', ' '] + l + seq!['\n'],
        EntryView::Definition(n, c) => n + seq![':', ' ', '#'] + rgba_hex(
            c.red,
            c.green,
            c.blue,
            c.alpha,
        ) + seq![';', '\n'],
    }
}

/// The serialized registry: every entry rendered, in insertion order.
pub open spec fn render_registry(es: Seq<EntryView>) -> Seq<char>
    decreases es.len(),
{
    if es.len() == 0 {
        Seq::empty()
    } else {
        render_registry(es.drop_last()) + render_entry(es.last())
    }
}

/// `name` has a definition in the registry.
pub open spec fn defined(es: Seq<EntryView>, name: Seq<char>) -> bool {
    lookup_spec(es, name) is Some
}

/// The color defined under `name`, resolved to the first definition carrying
/// that name; `None` when no entry defines it.
pub open spec fn lookup_spec(es: Seq<EntryView>, name: Seq<char>) -> Option<ColorView>
    decreases es.len(),
{
    if es.len() == 0 {
        None
    } else {
        match es[0] {
            EntryView::Definition(n, c) => if n == name {
                Some(c)
            } else {
                lookup_spec(es.drop_first(), name)
            },
            EntryView::Comment(_) => lookup_spec(es.drop_first(), name),
        }
    }
}

/// Appending an entry changes a lookup only for a name with no earlier
/// definition: the first definition wins, and definitions already visible
/// stay visible unchanged.
pub broadcast proof fn lemma_lookup_push(es: Seq<EntryView>, d: EntryView, name: Seq<char>)
    ensures
        #[trigger] lookup_spec(es.push(d), name) == (if lookup_spec(es, name) is Some {
            lookup_spec(es, name)
        } else {
            match d {
                EntryView::Definition(m, c) => if m == name {
                    Some(c)
                } else {
                    None
                },
                EntryView::Comment(_) => None,
            }
        }),
    decreases es.len(),
{
    if es.len() == 0 {
        assert(es.push(d)[0] == d);
        assert(es.push(d).drop_first() =~= Seq::<EntryView>::empty());
        assert(lookup_spec(Seq::<EntryView>::empty(), name) is None);
        match d {
            EntryView::Definition(m, c) => {
                if m == name {
                    assert(lookup_spec(es.push(d), name) == Some(c));
                } else {
                    assert(lookup_spec(es.push(d), name) is None);
                }
            },
            EntryView::Comment(_) => {
                assert(lookup_spec(es.push(d), name) is None);
            },
        }
    } else {
        assert(es.push(d)[0] == es[0]);
        assert(es.push(d).drop_first() =~= es.drop_first().push(d));
        lemma_lookup_push(es.drop_first(), d, name);
        match es[0] {
            EntryView::Definition(m, c) => {
                if m == name {
                    assert(lookup_spec(es.push(d), name) == Some(c));
                    assert(lookup_spec(es, name) == Some(c));
                } else {
                    assert(lookup_spec(es.push(d), name) == lookup_spec(
                        es.drop_first().push(d),
                        name,
                    ));
                    assert(lookup_spec(es, name) == lookup_spec(es.drop_first(), name));
                }
            },
            EntryView::Comment(_) => {
                assert(lookup_spec(es.push(d), name) == lookup_spec(
                    es.drop_first().push(d),
                    name,
                ));
                assert(lookup_spec(es, name) == lookup_spec(es.drop_first(), name));
            },
        }
    }
}

/// The sequential builder of the theme registry: entries are appended in
/// emission order, which is also the output order, and previously emitted
/// definitions can be read back by name.
pub struct ThemeBuilder {
    entries: Vec<ThemeEntry>,
    out: String,
}

impl View for ThemeBuilder {
    type V = Seq<EntryView>;

    closed spec fn view(&self) -> Seq<EntryView> {
        Seq::new(self.entries@.len(), |i: int| self.entries@[i]@)
    }
}

impl ThemeBuilder {
    /// The builder's serialized output always matches its registry.
    pub closed spec fn wf(&self) -> bool {
        self.out@ == render_registry(self@)
    }

    /// An empty registry.
    pub fn new() -> (b: ThemeBuilder)
        ensures
            b@.len() == 0,
            b.wf(),
    {
        let b = ThemeBuilder { entries: Vec::new(), out: String::new() };
        proof {
            assert(b@ =~= Seq::<EntryView>::empty());
        }
        b
    }

    /// Appends a comment marker.  It renders as a blank line followed by
    /// `// <label>` and does not define a name.
    pub fn emit_comment(&mut self, label: &str)
        requires
            old(self).wf(),
        ensures
            final(self).wf(),
            final(self)@ == old(self)@.push(EntryView::Comment(label@)),
    {
        let ghost before = self@;
        self.out.append("\n// ");
        self.out.append(label);
        self.out.append("\n");
        self.entries.push(ThemeEntry::Comment(label.to_owned()));
        proof {
            reveal_strlit("\n// ");
            reveal_strlit("\n");
            assert(self@ =~= before.push(EntryView::Comment(label@)));
            assert(self@.drop_last() =~= before);
            assert(self.out@ =~= render_registry(before) + render_entry(
                EntryView::Comment(label@),
            ));
        }
    }

    /// Appends the definition of `name` as `color`.  It renders as
    /// `<name>: #<8 lowercase hex digits>;`.
    pub fn emit_color(&mut self, name: &str, color: Color)
        requires
            old(self).wf(),
        ensures
            final(self).wf(),
            final(self)@ == old(self)@.push(EntryView::Definition(name@, color@)),
    {
        let ghost before = self@;
        let hex = color.to_hex();
        self.out.append(name);
        self.out.append(": #");
        self.out.append(hex.as_str());
        self.out.append(";\n");
        self.entries.push(ThemeEntry::Definition(name.to_owned(), color));
        proof {
            reveal_strlit(": #");
            reveal_strlit(";\n");
            assert(self@ =~= before.push(EntryView::Definition(name@, color@)));
            assert(self@.drop_last() =~= before);
            assert(self.out@ =~= render_registry(before) + render_entry(
                EntryView::Definition(name@, color@),
            ));
        }
    }

    /// The first definition emitted under `name`; referencing a name that
    /// was not yet emitted fails with `UndefinedReferenceError`.
    pub fn lookup(&self, name: &str) -> (r: Result<Color, ThemeError>)
        ensures
            match lookup_spec(self@, name@) {
                Some(cv) => r matches Ok(c) && c@ == cv,
                None => r == Err::<Color, ThemeError>(ThemeError::UndefinedReferenceError),
            },
    {
        let key: String = name.to_owned();
        let n = self.entries.len();
        proof {
            assert(self@.skip(0) =~= self@);
        }
        let mut i: usize = 0;
        while i < n
            invariant
                i <= n == self.entries@.len(),
                key@ == name@,
                lookup_spec(self@.skip(i as int), name@) == lookup_spec(self@, name@),
            decreases n - i,
        {
            proof {
                assert(self@.skip(i as int)[0] == self@[i as int]);
                assert(self@.skip(i as int).drop_first() =~= self@.skip(i + 1));
            }
            match &self.entries[i] {
                ThemeEntry::Definition(en, c) => {
                    if *en == key {
                        return Ok(c.duplicate());
                    }
                },
                ThemeEntry::Comment(_) => {},
            }
            i = i + 1;
        }
        proof {
            assert(self@.skip(n as int) =~= Seq::<EntryView>::empty());
        }
        Err(ThemeError::UndefinedReferenceError)
    }

    /// The number of entries emitted so far.
    pub fn len(&self) -> (n: usize)
        ensures
            n == self@.len(),
    {
        self.entries.len()
    }

    /// The serialized registry, in emission order.
    pub fn output(&self) -> (s: String)
        requires
            self.wf(),
        ensures
            s@ == render_registry(self@),
    {
        self.out.clone()
    }
}

/// Value of a digit for decimal rendering.
pub open spec fn dec_digit_char(v: int) -> char {
    if v == 0 {
        '0'
    } else if v == 1 {
        '1'
    } else if v == 2 {
        '2'
    } else if v == 3 {
        '3'
    } else if v == 4 {
        '4'
    } else if v == 5 {
        '5'
    } else if v == 6 {
        '6'
    } else if v == 7 {
        '7'
    } else if v == 8 {
        '8'
    } else {
        '9'
    }
}

/// Decimal rendering of a nonnegative number, most significant digit first.
pub open spec fn decimal_repr(n: int) -> Seq<char>
    decreases n,
{
    if n < 10 {
        seq![dec_digit_char(n)]
    } else {
        decimal_repr(n / 10).push(dec_digit_char(n % 10))
    }
}

/// Decimal digit as a one-character string slice.
fn dec_digit_str(v: u64) -> (r: &'static str)
    requires
        v < 10,
    ensures
        r@ =~= seq![dec_digit_char(v as int)],
{
    let r = match v {
        0 => "0",
        1 => "1",
        2 => "2",
        3 => "3",
        4 => "4",
        5 => "5",
        6 => "6",
        7 => "7",
        8 => "8",
        _ => "9",
    };
    proof {
        reveal_strlit("0");
        reveal_strlit("1");
        reveal_strlit("2");
        reveal_strlit("3");
        reveal_strlit("4");
        reveal_strlit("5");
        reveal_strlit("6");
        reveal_strlit("7");
        reveal_strlit("8");
        reveal_strlit("9");
    }
    r
}

/// Appends the decimal rendering of `n`.
fn push_decimal(s: &mut String, n: usize)
    ensures
        final(s)@ == old(s)@ + decimal_repr(n as int),
    decreases n,
{
    if n >= 10 {
        push_decimal(s, n / 10);
        s.append(dec_digit_str((n % 10) as u64));
        proof {
            assert(s@ =~= old(s)@ + decimal_repr(n as int));
        }
    } else {
        s.append(dec_digit_str(n as u64));
        proof {
            assert(s@ =~= old(s)@ + decimal_repr(n as int));
        }
    }
}

/// The name of base palette entry `i`: `color` followed by `i` in decimal.
pub open spec fn color_name(i: int) -> Seq<char> {
    seq!['c', 'o', 'l', 'o', 'r'] + decimal_repr(i)
}

/// Exec rendering of `color_name`.
pub fn index_name(i: usize) -> (s: String)
    ensures
        s@ == color_name(i as int),
{
    let mut s = String::new();
    s.append("color");
    push_decimal(&mut s, i);
    proof {
        reveal_strlit("color");
        assert(s@ =~= seq!['c', 'o', 'l', 'o', 'r'] + decimal_repr(i as int));
    }
    s
}

/// The view of a valid color literal: its channels, with no contrast
/// ranking attached.
pub open spec fn hex_color_view(s: Seq<char>) -> ColorView {
    crate::palette::channels_view(crate::hex::parse_hex_rgba(s).unwrap())
}

/// A color literal written in source data; a malformed literal fails with
/// `InvalidHexFormat`.
pub fn hex_color(s: &str) -> (r: Result<Color, ThemeError>)
    ensures
        match crate::hex::parse_hex_rgba(s@) {
            Some(q) => r matches Ok(c) && c@ == hex_color_view(s@),
            None => r == Err::<Color, ThemeError>(ThemeError::InvalidHexFormat),
        },
{
    match Color::from_hex(s) {
        Some(c) => {
            proof {
                assert(c@ =~~= hex_color_view(s@));
            }
            Ok(c)
        },
        None => Err(ThemeError::InvalidHexFormat),
    }
}

} // verus!
