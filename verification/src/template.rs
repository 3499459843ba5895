//! The templating engine: placeholder replacement over HTML, CSS and JS
//! texts, and rendering into a single HTML string. Reading template files
//! from disk is the host application's part; the engine works on the texts.

use vstd::prelude::*;

use crate::strutil::{chars_of, replace_chars, replace_seq, string_from_chars};

verus! {

use vstd::string::StringExecFns;

/// The placeholder written for a key: `{{key}}`.
pub open spec fn placeholder_of(key: Seq<char>) -> Seq<char> {
    "{{"@ + key + "}}"@
}

/// The views of a vector of string pairs.
pub open spec fn pairs_view(vars: Seq<(String, String)>) -> Seq<(Seq<char>, Seq<char>)> {
    vars.map_values(|p: (String, String)| (p.0@, p.1@))
}

/// The text after substituting each variable in order: for every pair, each
/// occurrence of its placeholder is replaced by its value.
pub open spec fn apply_vars(s: Seq<char>, vars: Seq<(Seq<char>, Seq<char>)>) -> Seq<char>
    decreases vars.len(),
{
    if vars.len() == 0 {
        s
    } else {
        apply_vars(replace_seq(s, placeholder_of(vars[0].0), vars[0].1), vars.drop_first())
    }
}

/// Substituting one more variable substitutes it into the text produced so
/// far.
pub proof fn lemma_apply_vars_snoc(s: Seq<char>, vars: Seq<(Seq<char>, Seq<char>)>, p: (
    Seq<char>,
    Seq<char>,
))
    ensures
        apply_vars(s, vars.push(p)) == replace_seq(
            apply_vars(s, vars),
            placeholder_of(p.0),
            p.1,
        ),
    decreases vars.len(),
{
    if vars.len() == 0 {
        let pushed = vars.push(p);
        assert(pushed[0] == p);
        assert(pushed.drop_first() =~= vars);
        let replaced = replace_seq(s, placeholder_of(p.0), p.1);
        assert(apply_vars(s, pushed) == apply_vars(replaced, pushed.drop_first()));
        assert(apply_vars(replaced, vars) == replaced);
        assert(apply_vars(s, vars) == s);
    } else {
        assert(vars.push(p)[0] == vars[0]);
        assert(vars.push(p).drop_first() =~= vars.drop_first().push(p));
        lemma_apply_vars_snoc(
            replace_seq(s, placeholder_of(vars[0].0), vars[0].1),
            vars.drop_first(),
            p,
        );
    }
}

/// A template with `{{key}}` placeholders in its HTML, CSS and JS texts.
#[derive(Debug)]
pub struct Template {
    /// The HTML text.
    pub html: String,
    /// The CSS text.
    pub css: String,
    /// The JS text.
    pub js: String,
}

/// Replaces every occurrence of `{{key}}` in the text by the value, for
/// each pair in order.
pub fn substitute_all(text: &str, vars: &Vec<(String, String)>) -> (r: String)
    ensures
        r@ == apply_vars(text@, pairs_view(vars@)),
{
    let n = vars.len();
    let mut current = text.to_owned();
    let mut i: usize = 0;
    proof {
        assert(pairs_view(vars@.take(0)) =~= Seq::<(Seq<char>, Seq<char>)>::empty());
    }
    while i < n
        invariant
            n == vars.len(),
            i <= n,
            current@ == apply_vars(text@, pairs_view(vars@.take(i as int))),
        decreases n - i,
    {
        let key = &vars[i].0;
        let value = &vars[i].1;
        let pattern = "{{".to_owned().concat(key.as_str()).concat("}}");
        let cur_chars = chars_of(current.as_str());
        let pat_chars = chars_of(pattern.as_str());
        let val_chars = chars_of(value.as_str());
        proof {
            reveal_strlit("{{");
            assert(pat_chars@ == placeholder_of(key@));
            assert(pat_chars.len() >= 1);
        }
        let replaced = replace_chars(&cur_chars, &pat_chars, &val_chars);
        current = string_from_chars(&replaced);
        i = i + 1;
        proof {
            lemma_apply_vars_snoc(text@, pairs_view(vars@.take(i - 1)), (key@, value@));
            assert(pairs_view(vars@.take(i as int)) =~= pairs_view(vars@.take(i - 1)).push(
                (key@, value@),
            ));
        }
    }
    proof {
        assert(vars@.take(n as int) =~= vars@);
    }
    current
}

impl Template {
    /// Replaces placeholders like `{{key}}` with values, pair by pair in
    /// order, across the HTML, CSS and JS texts.
    pub fn apply(self, vars: &Vec<(String, String)>) -> (r: Template)
        ensures
            r.html@ == apply_vars(self.html@, pairs_view(vars@)),
            r.css@ == apply_vars(self.css@, pairs_view(vars@)),
            r.js@ == apply_vars(self.js@, pairs_view(vars@)),
    {
        Template {
            html: substitute_all(self.html.as_str(), vars),
            css: substitute_all(self.css.as_str(), vars),
            js: substitute_all(self.js.as_str(), vars),
        }
    }

    /// Renders the template into a single HTML string: a style block, the
    /// HTML, and a script block.
    pub fn render(&self) -> (r: String)
        ensures
            r@ == "\n            <style>"@ + self.css@ + "</style>\n            "@ + self.html@
                + "\n            <script>"@ + self.js@ + "</script>\n            "@,
    {
        let mut out = "\n            <style>".to_owned();
        out.append(self.css.as_str());
        out.append("</style>\n            ");
        out.append(self.html.as_str());
        out.append("\n            <script>");
        out.append(self.js.as_str());
        out.append("</script>\n            ");
        out
    }
}

} // verus!
