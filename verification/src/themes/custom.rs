//! A theme loaded from configuration data: a table from module and
//! property names to color or text values, with explicit defaults layered
//! underneath.  Reading the table from disk is the driver's business; the
//! lookups here are verified against the table's contents.

use vstd::prelude::*;

use crate::colors::{color_by_name_spec, Color};
use crate::text::str_eq;

verus! {

/// One color as configuration writes it: by palette name or by palette
/// index.
pub enum ThemeColor {
    Named(String),
    Code(u8),
}

/// One value of a custom theme's table: a single color, a list of colors,
/// or a plain text.
pub enum ThemeValue {
    Named(String),
    Code(u8),
    List(Vec<ThemeColor>),
    Text(String),
}

/// One entry of a custom theme's table.
pub struct ThemeEntry {
    pub module: String,
    pub property: String,
    pub value: ThemeValue,
}

/// A custom theme: its default color pair and its property table.
pub struct CustomTheme {
    pub default_fg: Color,
    pub default_bg: Color,
    pub entries: Vec<ThemeEntry>,
}

/// The first table entry for a module and property, if any.
pub open spec fn find_entry(es: Seq<ThemeEntry>, m: Seq<char>, p: Seq<char>) -> Option<ThemeValue>
    decreases es.len(),
{
    if es.len() == 0 {
        None
    } else if es[0].module@ == m && es[0].property@ == p {
        Some(es[0].value)
    } else {
        find_entry(es.drop_first(), m, p)
    }
}

/// The color a theme value denotes, if it denotes one.
pub open spec fn value_color(v: ThemeValue) -> Option<Color> {
    match v {
        ThemeValue::Code(c) => Some(Color(c)),
        ThemeValue::Named(n) => color_by_name_spec(n@),
        ThemeValue::List(_) => None,
        ThemeValue::Text(_) => None,
    }
}

/// The color one list element denotes, if its name is known.
pub open spec fn list_color(v: ThemeColor) -> Option<Color> {
    match v {
        ThemeColor::Code(c) => Some(Color(c)),
        ThemeColor::Named(n) => color_by_name_spec(n@),
    }
}

/// The colors a list denotes: all of them, or nothing when any element
/// fails to resolve.
pub open spec fn resolve_list(vs: Seq<ThemeColor>) -> Option<Seq<Color>>
    decreases vs.len(),
{
    if vs.len() == 0 {
        Some(Seq::<Color>::empty())
    } else {
        match list_color(vs[0]) {
            None => None,
            Some(c) => match resolve_list(vs.drop_first()) {
                None => None,
                Some(rest) => Some(seq![c] + rest),
            },
        }
    }
}

proof fn lemma_resolve_list_all(vs: Seq<ThemeColor>, cs: Seq<Color>)
    requires
        vs.len() == cs.len(),
        forall|j: int| 0 <= j < vs.len() ==> list_color(vs[j]) == Some(cs[j]),
    ensures
        resolve_list(vs) == Some(cs),
    decreases vs.len(),
{
    if vs.len() > 0 {
        lemma_resolve_list_all(vs.drop_first(), cs.drop_first());
        assert(seq![cs[0]] + cs.drop_first() =~= cs);
    }
}

proof fn lemma_resolve_list_none(vs: Seq<ThemeColor>, j: int)
    requires
        0 <= j < vs.len(),
        list_color(vs[j]) is None,
    ensures
        resolve_list(vs) is None,
    decreases vs.len(),
{
    if j > 0 {
        lemma_resolve_list_none(vs.drop_first(), j - 1);
    }
}

impl CustomTheme {
    /// A custom theme from its defaults and its table.
    pub fn load(default_fg: Color, default_bg: Color, entries: Vec<ThemeEntry>) -> (r: CustomTheme)
        ensures
            r.default_fg == default_fg,
            r.default_bg == default_bg,
            r.entries == entries,
    {
        CustomTheme { default_fg, default_bg, entries }
    }

    fn find(&self, module: &str, property: &str) -> (r: Option<&ThemeValue>)
        ensures
            match r {
                Some(v) => find_entry(self.entries@, module@, property@) == Some(*v),
                None => find_entry(self.entries@, module@, property@) is None,
            },
    {
        let n = self.entries.len();
        let mut k: usize = 0;
        proof {
            assert(self.entries@.skip(0) =~= self.entries@);
        }
        while k < n
            invariant
                k <= n,
                n == self.entries@.len(),
                find_entry(self.entries@, module@, property@) == find_entry(
                    self.entries@.skip(k as int),
                    module@,
                    property@,
                ),
            decreases n - k,
        {
            let e = &self.entries[k];
            proof {
                assert(self.entries@.skip(k as int)[0] == self.entries@[k as int]);
            }
            if str_eq(e.module.as_str(), module) && str_eq(e.property.as_str(), property) {
                return Some(&e.value);
            }
            proof {
                assert(self.entries@.skip(k as int).drop_first() =~= self.entries@.skip(k + 1));
            }
            k = k + 1;
        }
        proof {
            assert(self.entries@.skip(k as int) =~= Seq::<ThemeEntry>::empty());
        }
        None
    }

    /// The text a module's property names, when the table holds one.
    pub fn get_str(&self, module: &str, property: &str) -> (r: Option<String>)
        ensures
            match find_entry(self.entries@, module@, property@) {
                Some(v) => match v {
                    ThemeValue::Text(t) => r is Some && r.unwrap()@ == t@,
                    _ => r is None,
                },
                None => r is None,
            },
    {
        match self.find(module, property) {
            Some(v) => match v {
                ThemeValue::Text(t) => Some(t.clone()),
                _ => None,
            },
            None => None,
        }
    }

    /// The color a module's property names, when the table holds one and it
    /// resolves.
    pub fn get_color(&self, module: &str, property: &str) -> (r: Option<Color>)
        ensures
            match find_entry(self.entries@, module@, property@) {
                Some(v) => r == value_color(v),
                None => r is None,
            },
    {
        match self.find(module, property) {
            Some(v) => match v {
                ThemeValue::Code(c) => Some(Color(*c)),
                ThemeValue::Named(n) => Color::from_name(n.as_str()),
                ThemeValue::List(_) => None,
                ThemeValue::Text(_) => None,
            },
            None => None,
        }
    }

    /// The colors a module's property lists, when the table holds a list
    /// and every element resolves.
    pub fn get_colors(&self, module: &str, property: &str) -> (r: Option<Vec<Color>>)
        ensures
            match find_entry(self.entries@, module@, property@) {
                Some(v) => match v {
                    ThemeValue::List(vs) => match r {
                        Some(cs) => resolve_list(vs@) == Some(cs@),
                        None => resolve_list(vs@) is None,
                    },
                    _ => r is None,
                },
                None => r is None,
            },
    {
        let found = self.find(module, property);
        match found {
            Some(v) => match v {
                ThemeValue::List(vs) => {
                    let mut colors: Vec<Color> = Vec::new();
                    let n = vs.len();
                    let mut k: usize = 0;
                    while k < n
                        invariant
                            k <= n,
                            n == vs@.len(),
                            colors@.len() == k,
                            find_entry(self.entries@, module@, property@) == Some(
                                ThemeValue::List(*vs),
                            ),
                            forall|j: int| 0 <= j < k ==> list_color(vs@[j]) == Some(colors@[j]),
                        decreases n - k,
                    {
                        let c = match &vs[k] {
                            ThemeColor::Code(c) => Some(Color(*c)),
                            ThemeColor::Named(name) => Color::from_name(name.as_str()),
                        };
                        match c {
                            Some(c) => colors.push(c),
                            None => {
                                proof {
                                    lemma_resolve_list_none(vs@, k as int);
                                }
                                return None;
                            },
                        }
                        k = k + 1;
                    }
                    proof {
                        lemma_resolve_list_all(vs@, colors@);
                    }
                    Some(colors)
                },
                _ => None,
            },
            None => None,
        }
    }
}

} // verus!
