//! Base16 colour schemes: sixteen colours each, mapped onto the 22
//! colours of a terminal palette.
use vstd::prelude::*;

use crate::sort::{
    lemma_multiset_map, lemma_text_le_antisym, lemma_text_le_refl, lemma_text_le_total, lemma_text_le_trans, sort_in_order,
    sorted_in_order, text_le, text_less, TotalOrder,
};
use crate::terminal::base16_table::{create_schemes, lemma_builtin_bounds, slug_in_bounds, spec_builtin};
use crate::terminal::color::{Color, PALETTE_SIZE};
use crate::text::{push_str, spec_starts_with, starts_with, str_eq, strings_view, to_owned_string};

verus! {

/// The model of a scheme.
pub struct Base16View {
    /// The identifier of the scheme, such as `solarized-dark`.
    pub slug: Seq<char>,
    /// The display name of the scheme.
    pub name: Seq<char>,
    /// The sixteen base colours.
    pub colors: Seq<Color>,
    /// The category the name begins with, if any.
    pub category: Option<Seq<char>>,
}

/// The colour of a `0xRRGGBB` value.
pub open spec fn spec_u32_to_color(c: u32) -> Color {
    Color(((c >> 16u32) & 0xffu32) as u16, ((c >> 8u32) & 0xffu32) as u16, (c & 0xffu32) as u16)
}

/// The scheme categories, in the order they are tried.
pub open spec fn spec_category_names() -> Seq<Seq<char>> {
    seq![
        "Atelier"@, "Black Metal"@, "Brush Trees"@, "Classic"@, "Default"@, "Google"@,
        "Grayscale"@, "Gruvbox"@, "Harmonic16"@, "Heetch"@, "iA"@, "Material"@,
        "Papercolor"@, "Solarized"@, "Summerfruit"@, "Tomorrow"@, "Unikitty"@,
    ]
}

/// The first category from position `i` on that `name` begins with.
pub open spec fn find_category_from(name: Seq<char>, i: int) -> Option<Seq<char>>
    decreases spec_category_names().len() - i,
{
    if i < 0 || i >= spec_category_names().len() {
        None
    } else if spec_starts_with(name, spec_category_names()[i]) {
        Some(spec_category_names()[i])
    } else {
        find_category_from(name, i + 1)
    }
}

/// The first category that `name` begins with.
pub open spec fn spec_find_category(name: Seq<char>) -> Option<Seq<char>> {
    find_category_from(name, 0)
}

/// The scheme built from a slug, a name and sixteen `0xRRGGBB` values.
pub open spec fn spec_scheme(slug: Seq<char>, name: Seq<char>, v: Seq<u32>) -> Base16View {
    Base16View {
        slug,
        name,
        colors: v.map_values(|c: u32| spec_u32_to_color(c)),
        category: spec_find_category(name),
    }
}

/// The base colour shown at each of the 22 terminal palette positions.
pub open spec fn spec_term_map() -> Seq<int> {
    seq![0x00, 0x08, 0x0B, 0x0A, 0x0D, 0x0E, 0x0C, 0x05, 0x03, 0x08, 0x0B, 0x0A, 0x0D, 0x0E, 0x0C, 0x07, 0x09, 0x0F, 0x01, 0x02, 0x04, 0x06]
}

/// A base16 colour scheme.
#[derive(Clone, Debug)]
pub struct Base16Scheme {
    name: String,
    slug: String,
    colors: [Color; 16],
    category: Option<String>,
}

impl View for Base16Scheme {
    type V = Base16View;

    closed spec fn view(&self) -> Base16View {
        Base16View {
            slug: self.slug@,
            name: self.name@,
            colors: self.colors@,
            category: match self.category {
                Some(c) => Some(c@),
                None => None,
            },
        }
    }
}

impl TotalOrder for Base16Scheme {
    /// Schemes are ordered by name.
    open spec fn order_le(self, other: Self) -> bool {
        text_le(self@.name, other@.name)
    }

    proof fn lemma_order_refl(a: Self) {
        lemma_text_le_refl(a@.name);
    }

    proof fn lemma_order_total(a: Self, b: Self) {
        lemma_text_le_total(a@.name, b@.name);
    }

    proof fn lemma_order_trans(a: Self, b: Self, c: Self) {
        lemma_text_le_trans(a@.name, b@.name, c@.name);
    }

    fn less(&self, other: &Self) -> (r: bool) {
        text_less(self.name(), other.name())
    }
}

/// The model of a scheme.
pub open spec fn scheme_view(s: Base16Scheme) -> Base16View {
    s@
}

/// The slug of a scheme model.
pub open spec fn view_slug(v: Base16View) -> Seq<char> {
    v.slug
}

/// The first scheme of `t` with slug `name`.
pub open spec fn spec_lookup(t: Seq<Base16View>, name: Seq<char>) -> Option<Base16View>
    decreases t.len(),
{
    if t.len() == 0 {
        None
    } else if t[0].slug == name {
        Some(t[0])
    } else {
        spec_lookup(t.drop_first(), name)
    }
}

impl Base16Scheme {
    /// The scheme with slug `name` among the built-in schemes.
    pub fn by_name(name: &str) -> (r: Option<Base16Scheme>)
        ensures
            match spec_lookup(spec_builtin(), name@) {
                Some(v) => r matches Some(s) && s@ == v,
                None => r is None,
            },
    {
        let mut table = create_schemes();
        let ghost t = table@.map_values(|s: Base16Scheme| s@);
        let mut i: usize = 0;
        assert(t.skip(0) =~= t);
        while i < table.len()
            invariant
                i <= table@.len(),
                t == table@.map_values(|s: Base16Scheme| s@),
                t == spec_builtin(),
                spec_lookup(t.skip(i as int), name@) == spec_lookup(t, name@),
            decreases table@.len() - i,
        {
            assert(t.skip(i as int)[0] == table@[i as int]@);
            if str_eq(table[i].slug.as_str(), name) {
                let s = table.remove(i);
                return Some(s);
            }
            assert(t.skip(i as int).drop_first() =~= t.skip(i + 1));
            i += 1;
        }
        assert(t.skip(i as int) =~= Seq::<Base16View>::empty());
        None
    }

    /// The slugs of all built-in schemes, each once, in strictly ascending
    /// order: from `3024` to `zenburn`.
    pub fn all_names() -> (r: Vec<String>)
        ensures
            forall|x: Seq<char>| #[trigger] strings_view(r@).contains(x) <==> spec_builtin().map_values(
                |v: Base16View| v.slug,
            ).contains(x),
            sorted_in_order(r@),
            forall|i: int, j: int| 0 <= i < j < r@.len() ==> (#[trigger] r@[i])@ != (#[trigger] r@[j])@,
            r@.len() > 0,
            r@[0]@ == "3024"@,
            r@[r@.len() - 1]@ == "zenburn"@,
    {
        broadcast use vstd::seq_lib::group_to_multiset_ensures;

        let table = create_schemes();
        let ghost slugs = spec_builtin().map_values(|v: Base16View| v.slug);
        let mut names: Vec<String> = Vec::new();
        let mut i: usize = 0;
        while i < table.len()
            invariant
                i <= table@.len(),
                table@.map_values(|s: Base16Scheme| s@) == spec_builtin(),
                strings_view(names@) == spec_builtin().take(i as int).map_values(|v: Base16View| v.slug),
            decreases table@.len() - i,
        {
            let ghost before = names@;
            names.push(to_owned_string(table[i].slug()));
            assert(spec_builtin()[i as int] == table@[i as int]@);
            assert(strings_view(names@) =~= strings_view(before).push(table@[i as int]@.slug));
            assert(spec_builtin().take(i + 1).map_values(|v: Base16View| v.slug) =~= spec_builtin().take(
                i as int,
            ).map_values(|v: Base16View| v.slug).push(spec_builtin()[i as int].slug));
            i += 1;
        }
        assert(spec_builtin().take(table@.len() as int) =~= spec_builtin());
        let ghost unsorted = names@;
        let sorted = sort_in_order(names);
        let ghost sv = strings_view(sorted@);
        proof {
            lemma_multiset_map(sorted@, unsorted, |s: String| s@);
            assert(sv =~= sorted@.map_values(|s: String| s@));
            assert(strings_view(unsorted) =~= unsorted.map_values(|s: String| s@));
            assert forall|x: Seq<char>| sv.contains(x) <==> slugs.contains(x) by {
                assert(sv.contains(x) <==> sv.to_multiset().count(x) > 0);
                assert(slugs.contains(x) <==> slugs.to_multiset().count(x) > 0);
            }
        }
        // keep each name once
        let mut out: Vec<String> = Vec::new();
        let mut k: usize = 0;
        while k < sorted.len()
            invariant
                k <= sorted@.len(),
                sv == strings_view(sorted@),
                sorted_in_order(sorted@),
                sorted_in_order(out@),
                forall|a: int, b: int| 0 <= a < b < out@.len() ==> (#[trigger] out@[a])@ != (#[trigger] out@[b])@,
                forall|x: Seq<char>| #[trigger] strings_view(out@).contains(x) <==> sv.take(k as int).contains(x),
                forall|x: Seq<char>| sv.contains(x) <==> slugs.contains(x),
                slugs == spec_builtin().map_values(|v: Base16View| v.slug),
                k > 0 ==> out@.len() > 0 && out@[out@.len() - 1]@ == sv[k - 1],
                k == 0 ==> out@.len() == 0,
            decreases sorted@.len() - k,
        {
            let ghost before = out@;
            let keep = out.len() == 0 || !str_eq(out[out.len() - 1].as_str(), sorted[k].as_str());
            assert(sv[k as int] == sorted@[k as int]@);
            if keep {
                out.push(to_owned_string(sorted[k].as_str()));
                proof {
                    let s = sv[k as int];
                    assert(out@[before.len() as int]@ == s);
                    assert forall|a: int| 0 <= a < before.len() implies text_le(before[a]@, s) && before[a]@ != s by {
                        let last = before.len() - 1;
                        if a < last {
                            assert(before[a].order_le(before[last]));
                        } else {
                            lemma_text_le_refl(before[a]@);
                        }
                        assert(sorted@[k - 1].order_le(sorted@[k as int]));
                        assert(before[last]@ == sorted@[k - 1]@);
                        lemma_text_le_trans(before[a]@, before[last]@, s);
                        if before[a]@ == s {
                            lemma_text_le_antisym(before[last]@, s);
                        }
                    }
                    assert forall|a: int, b: int| 0 <= a < b < out@.len() implies (#[trigger] out@[a]).order_le(
                        #[trigger] out@[b],
                    ) by {
                        if b < before.len() {
                            assert(before[a].order_le(before[b]));
                        }
                    }
                    assert forall|a: int, b: int| 0 <= a < b < out@.len() implies (#[trigger] out@[a])@
                        != (#[trigger] out@[b])@ by {
                        if b < before.len() {
                            assert(before[a]@ != before[b]@);
                        }
                    }
                    assert(strings_view(out@) =~= strings_view(before).push(s));
                    assert forall|x: Seq<char>| #[trigger] strings_view(out@).contains(x) <==> sv.take(
                        k + 1,
                    ).contains(x) by {
                        assert(sv.take(k + 1) =~= sv.take(k as int).push(s));
                        if strings_view(out@).contains(x) && x != s {
                            let so = strings_view(out@);
                            let p = choose|p: int| 0 <= p < so.len() && so[p] == x;
                            assert(strings_view(before)[p] == x);
                            assert(strings_view(before).contains(x));
                        }
                        if sv.take(k + 1).contains(x) && x != s {
                            let t1 = sv.take(k + 1);
                            let p = choose|p: int| 0 <= p < t1.len() && t1[p] == x;
                            assert(sv.take(k as int)[p] == x);
                            assert(sv.take(k as int).contains(x));
                            assert(strings_view(before).contains(x));
                            let sb = strings_view(before);
                            let q = choose|q: int| 0 <= q < sb.len() && sb[q] == x;
                            assert(strings_view(out@)[q] == x);
                        }
                        if x == s {
                            assert(strings_view(out@)[before.len() as int] == s);
                            assert(sv.take(k + 1)[k as int] == s);
                        }
                    }
                }
            } else {
                proof {
                    let s = sv[k as int];
                    assert(before[before.len() - 1]@ == s);
                    assert forall|x: Seq<char>| #[trigger] strings_view(out@).contains(x) <==> sv.take(
                        k + 1,
                    ).contains(x) by {
                        assert(sv.take(k + 1) =~= sv.take(k as int).push(s));
                        if x == s {
                            assert(strings_view(out@)[before.len() - 1] == s);
                            assert(sv.take(k + 1)[k as int] == s);
                        }
                        if sv.take(k + 1).contains(x) && x != s {
                            let t1 = sv.take(k + 1);
                            let p = choose|p: int| 0 <= p < t1.len() && t1[p] == x;
                            assert(sv.take(k as int)[p] == x);
                            assert(sv.take(k as int).contains(x));
                        }
                        if strings_view(out@).contains(x) {
                            assert(sv.take(k as int).contains(x));
                            let t0 = sv.take(k as int);
                            let p = choose|p: int| 0 <= p < t0.len() && t0[p] == x;
                            assert(sv.take(k + 1)[p] == x);
                        }
                    }
                }
            }
            k += 1;
        }
        proof {
            assert(sv.take(sorted@.len() as int) =~= sv);
            lemma_builtin_bounds();
            let n = out@.len();
            assert(slugs[0] == "3024"@);
            assert(slugs.contains("3024"@));
            assert(sv.contains("3024"@));
            assert(strings_view(out@).contains("3024"@));
            assert(slugs[slugs.len() - 1] == "zenburn"@);
            assert(slugs.contains("zenburn"@));
            assert(sv.contains("zenburn"@));
            assert(strings_view(out@).contains("zenburn"@));
            assert(n > 0);
            let first = out@[0]@;
            let last = out@[n - 1]@;
            assert(strings_view(out@)[0] == first);
            assert(strings_view(out@).contains(first));
            assert(slugs.contains(first));
            let fi = choose|fi: int| 0 <= fi < slugs.len() && slugs[fi] == first;
            assert(spec_builtin()[fi].slug == first);
            assert(slug_in_bounds(spec_builtin()[fi].slug));
            let so = strings_view(out@);
            let m = choose|m: int| 0 <= m < so.len() && so[m] == "3024"@;
            if m > 0 {
                assert(out@[0].order_le(out@[m]));
            } else {
                lemma_text_le_refl(first);
            }
            lemma_text_le_antisym(first, "3024"@);
            assert(strings_view(out@)[n - 1] == last);
            assert(strings_view(out@).contains(last));
            assert(slugs.contains(last));
            let li = choose|li: int| 0 <= li < slugs.len() && slugs[li] == last;
            assert(spec_builtin()[li].slug == last);
            assert(slug_in_bounds(spec_builtin()[li].slug));
            let z = choose|z: int| 0 <= z < so.len() && so[z] == "zenburn"@;
            if z < n - 1 {
                assert(out@[z].order_le(out@[n - 1]));
            } else {
                lemma_text_le_refl(last);
            }
            lemma_text_le_antisym(last, "zenburn"@);
            assert forall|x: Seq<char>| #[trigger] strings_view(out@).contains(x) <==> slugs.contains(x) by {
                assert(strings_view(out@).contains(x) <==> sv.take(sorted@.len() as int).contains(x));
            }
        }
        out
    }

    /// All built-in schemes, sorted by name.
    pub fn all_schemes() -> (r: Vec<Base16Scheme>)
        ensures
            r@.map_values(|s: Base16Scheme| s@).to_multiset() == spec_builtin().to_multiset(),
            sorted_in_order(r@),
    {
        let table = create_schemes();
        let ghost unsorted = table@;
        let sorted = sort_in_order(table);
        proof {
            lemma_multiset_map(sorted@, unsorted, |s: Base16Scheme| s@);
        }
        sorted
    }

    /// The names of the scheme categories.
    pub fn category_names() -> (r: Vec<&'static str>)
        ensures
            r@.map_values(|s: &str| s@) == spec_category_names(),
    {
        let r = vec![
            "Atelier", "Black Metal", "Brush Trees", "Classic", "Default", "Google",
            "Grayscale", "Gruvbox", "Harmonic16", "Heetch", "iA", "Material",
            "Papercolor", "Solarized", "Summerfruit", "Tomorrow", "Unikitty",
        ];
        assert(r@.map_values(|s: &str| s@) =~= spec_category_names());
        r
    }

    /// The identifier of the scheme.
    pub fn slug(&self) -> (r: &str)
        ensures
            r@ == self@.slug,
    {
        self.slug.as_str()
    }

    /// The display name of the scheme.
    pub fn name(&self) -> (r: &str)
        ensures
            r@ == self@.name,
    {
        self.name.as_str()
    }

    /// The category the name begins with, if any.
    pub fn category(&self) -> (r: Option<&str>)
        ensures
            match self@.category {
                Some(c) => r matches Some(s) && s@ == c,
                None => r is None,
            },
    {
        match &self.category {
            Some(c) => Some(c.as_str()),
            None => None,
        }
    }

    /// The first category that `name` begins with.
    fn find_category(name: &str) -> (r: Option<String>)
        ensures
            match spec_find_category(name@) {
                Some(c) => r matches Some(s) && s@ == c,
                None => r is None,
            },
    {
        let categories = Self::category_names();
        let mut i: usize = 0;
        while i < categories.len()
            invariant
                i <= categories@.len(),
                categories@.map_values(|s: &str| s@) == spec_category_names(),
                find_category_from(name@, i as int) == spec_find_category(name@),
            decreases categories@.len() - i,
        {
            assert(categories@.map_values(|s: &str| s@)[i as int] == categories@[i as int]@);
            if starts_with(name, categories[i]) {
                return Some(to_owned_string(categories[i]));
            }
            i += 1;
        }
        None
    }

    /// A scheme from its slug, its name and sixteen `0xRRGGBB` colours.
    pub fn new(slug: &str, name: &str, v: Vec<u32>) -> (r: Base16Scheme)
        requires
            v@.len() == 16,
        ensures
            r@ == spec_scheme(slug@, name@, v@),
    {
        let colors = [
            Self::u32_to_color(v[0]), Self::u32_to_color(v[1]), Self::u32_to_color(v[2]),
            Self::u32_to_color(v[3]), Self::u32_to_color(v[4]), Self::u32_to_color(v[5]),
            Self::u32_to_color(v[6]), Self::u32_to_color(v[7]), Self::u32_to_color(v[8]),
            Self::u32_to_color(v[9]), Self::u32_to_color(v[10]), Self::u32_to_color(v[11]),
            Self::u32_to_color(v[12]), Self::u32_to_color(v[13]), Self::u32_to_color(v[14]),
            Self::u32_to_color(v[15]),
        ];
        let category = Self::find_category(name);
        let r = Base16Scheme {
            name: to_owned_string(name),
            slug: to_owned_string(slug),
            colors,
            category,
        };
        assert(r@.colors =~= v@.map_values(|c: u32| spec_u32_to_color(c)));
        r
    }

    /// A copy of the scheme.
    pub fn copy(&self) -> (r: Base16Scheme)
        ensures
            r@ == self@,
            r@.colors.len() == 16,
    {
        let category = match &self.category {
            Some(c) => Some(to_owned_string(c.as_str())),
            None => None,
        };
        Base16Scheme {
            name: to_owned_string(self.name.as_str()),
            slug: to_owned_string(self.slug.as_str()),
            colors: self.colors,
            category,
        }
    }

    /// Base colour `idx`.
    pub fn color(&self, idx: usize) -> (c: Color)
        requires
            idx < 16,
        ensures
            c == self@.colors[idx as int],
    {
        self.colors[idx]
    }

    fn u32_to_color(color: u32) -> (c: Color)
        ensures
            c == spec_u32_to_color(color),
    {
        let r = ((color >> 16) & 0xFF) as u16;
        let g = ((color >> 8) & 0xFF) as u16;
        let b = (color & 0xFF) as u16;
        Color::new(r, g, b)
    }

    /// The terminal background: base colour 0.
    pub fn terminal_background(&self) -> (c: Color)
        ensures
            c == self@.colors[0],
    {
        self.color(0)
    }

    /// The terminal foreground: base colour 5.
    pub fn terminal_foreground(&self) -> (c: Color)
        ensures
            c == self@.colors[5],
    {
        self.color(5)
    }

    /// The colour of terminal palette entry `idx`.
    pub fn terminal_palette_color(&self, idx: usize) -> (c: Color)
        requires
            idx < PALETTE_SIZE,
        ensures
            c == self@.colors[spec_term_map()[idx as int]],
    {
        let term_map: [usize; 22] = [
            0x00, 0x08, 0x0B, 0x0A, 0x0D, 0x0E, 0x0C, 0x05, 0x03, 0x08, 0x0B, 0x0A, 0x0D, 0x0E,
            0x0C, 0x07, 0x09, 0x0F, 0x01, 0x02, 0x04, 0x06,
        ];
        assert(term_map@ =~= spec_term_map().map_values(|i: int| i as usize));
        self.color(term_map[idx])
    }

    /// The vim configuration that selects the scheme.
    pub fn vim_file_text(&self) -> (r: String)
        ensures
            r@ == "if !exists('g:colors_name') || g:colors_name != '"@ + self@.slug + "'\n  colorscheme base16-"@
                + self@.slug + "\nendif\n"@,
    {
        let mut s = to_owned_string("if !exists('g:colors_name') || g:colors_name != '");
        push_str(&mut s, self.slug.as_str());
        push_str(&mut s, "'\n  colorscheme base16-");
        push_str(&mut s, self.slug.as_str());
        push_str(&mut s, "\nendif\n");
        s
    }
}

/// A lookup finds a scheme exactly when some scheme of the table has the
/// slug, and the scheme it finds has that slug.
pub proof fn lemma_lookup_found(t: Seq<Base16View>, name: Seq<char>)
    ensures
        (spec_lookup(t, name) is Some) == t.map_values(|v: Base16View| v.slug).contains(name),
        spec_lookup(t, name) matches Some(v) ==> v.slug == name,
    decreases t.len(),
{
    let slugs = t.map_values(|v: Base16View| v.slug);
    if t.len() > 0 {
        lemma_lookup_found(t.drop_first(), name);
        let rest = t.drop_first().map_values(|v: Base16View| v.slug);
        assert(slugs =~= seq![t[0].slug] + rest);
        assert(slugs[0] == t[0].slug);
        if rest.contains(name) {
            let k = choose|k: int| 0 <= k < rest.len() && rest[k] == name;
            assert(slugs[k + 1] == name);
        }
        if slugs.contains(name) && t[0].slug != name {
            let k = choose|k: int| 0 <= k < slugs.len() && slugs[k] == name;
            assert(k > 0);
            assert(rest[k - 1] == name);
        }
    }
}

/// Law: every name that `all_names` lists is found by `by_name`, as the
/// scheme with that slug, and every name that `by_name` finds is listed by
/// `all_names`.
pub proof fn law_all_names_by_name(names: Seq<Seq<char>>, name: Seq<char>)
    requires
        forall|x: Seq<char>| #[trigger] names.contains(x) <==> spec_builtin().map_values(
            |v: Base16View| v.slug,
        ).contains(x),
    ensures
        names.contains(name) ==> (spec_lookup(spec_builtin(), name) matches Some(v) && v.slug == name),
        spec_lookup(spec_builtin(), name) is Some ==> names.contains(name),
{
    lemma_lookup_found(spec_builtin(), name);
    assert(names.contains(name) <==> spec_builtin().map_values(|v: Base16View| v.slug).contains(name));
}

} // verus!
