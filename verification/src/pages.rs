//! The pages that are served to a browser: the login form and the frame
//! around it. Text that comes from a caller is escaped before it is put
//! into markup.

use crate::text::{chars_of, remove_all, without};
use vstd::prelude::*;
use vstd::string::StringExecFns;

verus! {

/// What every served document starts with.
pub const DOCTYPE: &'static str = "<!DOCTYPE html>";

/// Marker that a renderer leaves at the end of a dynamic text.
pub const TEXT_MARKER: &'static str = "<!--/-->";

/// Marker that a renderer leaves at the start of a dynamic block.
pub const BLOCK_MARKER: &'static str = "<!--#-->";

/// State of the login form, as the script on the page expects it.
pub const FORM_STATE: &'static str = "{pass: '', email: '', api_res: 'A', login: 'Login'}";

/// Start of every page, up to the opening of the body tag.
pub const FRAME_HEAD: &'static str =
    "<html class=\"\"><head><link rel=\"stylesheet\" href=\"/public/static/styles.css\"/><script src=\"https://unpkg.com/alpinejs@3.x.x/dist/cdn.min.js\" defer init></script></head><body";

/// Opens the attribute that holds the state of the page's script.
pub const FRAME_STATE_OPEN: &'static str = " x-data=\"";

/// Closes the attribute that holds the state of the page's script.
pub const FRAME_STATE_CLOSE: &'static str = "\"";

/// End of the body tag.
pub const FRAME_BODY: &'static str =
    " class=\"bg-gray-100 h-screen font-sans dark:bg-gray-700 text-black dark:text-white\">";

/// End of every page.
pub const FRAME_FOOT: &'static str = "</body></html>";

/// Start of an input field, up to the name that its label points to.
pub const INPUT_LABEL_FOR: &'static str = "<div class=\"mb-4\"><label for=\"";

/// From the label's target to its text.
pub const INPUT_LABEL_TEXT: &'static str = "\" class=\"block font-bold text-gray-700 mb-2\">";

/// From the label's text to the type of the input.
pub const INPUT_TYPE: &'static str = ": </label><input type=\"";

/// From the type of the input to its id.
pub const INPUT_ID: &'static str = "\" id=\"";

/// From the id of the input to the variable it is bound to.
pub const INPUT_MODEL: &'static str = "\" x-model=\"";

/// End of an input field.
pub const INPUT_CLOSE: &'static str =
    "\" class=\"w-full py-2 px-3 bg-gray-200 rounded-lg border border-gray-300 focus:outline-none focus:border-indigo-500\" required/></div>";

/// Start of the login form, up to its fields.
pub const FORM_OPEN: &'static str =
    "<div class=\"container mx-auto px-4 py-8\"><h1 class=\"text-3xl font-bold text-gray-900\">Welcome to our site!</h1><div class=\"mt-4\"><h2 class=\"text-xl font-bold text-gray-800\">Login</h2><p x-transition class=\"font-bold text-red-500 bg-red-500 bg-opacity-20 rounded-lg border border-red-500 text-xs mt-4 p-4 text-center invisible\" x-text=\"api_res\" x-ref=\"api\">A</p><div class=\"mt-4\">";

/// The button that submits the credentials and shows what came back.
pub const FORM_BUTTON: &'static str =
    "<div class=\"flex justify-end\"><button class=\"px-4 py-2 enabled:opacity-100 disabled:opacity-50 enabled:hover:bg-indigo-700 disabled:hover:bg-indigo-500 font-bold text-white bg-indigo-500 rounded-lg focus:outline-none focus:shadow-outline-indigo active:bg-indigo-800\" x-data=\"{ benable: true }\" x-bind:disabled=\"!benable\" x-on:click=\"benable = false; r_text = false; fetch('/api/public/login', { method: 'POST', headers: { 'Content-Type': 'application/json', }, body: JSON.stringify({ pass: pass, email: email }), }).then(response => { if (response.redirected) { window.location.href = response.url; } else { r_text = true; return response.text(); } }).then(data => { if (r_text === true) { api_res = data; $refs.api.classList.remove('invisible'); } benable = true; })\" x-text=\"login\">Login</button></div>";

/// End of the login form.
pub const FORM_CLOSE: &'static str = "</div></div></div>";

/// What a character is written as inside markup.
pub open spec fn entity(c: char) -> Seq<char> {
    if c == '&' {
        "&amp;"@
    } else if c == '<' {
        "&lt;"@
    } else if c == '>' {
        "&gt;"@
    } else if c == '"' {
        "&quot;"@
    } else if c == '\'' {
        "&#39;"@
    } else {
        seq![c]
    }
}

/// `text` with each character written as markup writes it.
pub open spec fn escaped(text: Seq<char>) -> Seq<char>
    decreases text.len(),
{
    if text.len() == 0 {
        Seq::empty()
    } else {
        escaped(text.drop_last()) + entity(text.last())
    }
}

/// A character that can open or close a tag or an attribute value.
pub open spec fn structural(c: char) -> bool {
    c == '<' || c == '>' || c == '"' || c == '\''
}

/// The markup of a labelled input field.
pub open spec fn value_input_markup(name: Seq<char>, ty: Seq<char>, var: Seq<char>) -> Seq<char> {
    INPUT_LABEL_FOR@ + escaped(name) + INPUT_LABEL_TEXT@ + escaped(name) + INPUT_TYPE@ + escaped(ty)
        + INPUT_ID@ + escaped(name) + INPUT_MODEL@ + escaped(var) + INPUT_CLOSE@
}

/// The markup of the frame around `children`.
pub open spec fn frame_markup(x_data: Option<Seq<char>>, children: Seq<char>) -> Seq<char> {
    match x_data {
        Some(state) => FRAME_HEAD@ + FRAME_STATE_OPEN@ + escaped(state) + FRAME_STATE_CLOSE@
            + FRAME_BODY@ + children + FRAME_FOOT@,
        None => FRAME_HEAD@ + FRAME_BODY@ + children + FRAME_FOOT@,
    }
}

/// The markup of the login form.
pub open spec fn form_markup() -> Seq<char> {
    FORM_OPEN@ + value_input_markup("Email"@, "email"@, "email"@) + value_input_markup(
        "Password"@,
        "password"@,
        "pass"@,
    ) + FORM_BUTTON@ + FORM_CLOSE@
}

/// The document that `markup` is served as: the doctype, then the markup
/// without the markers of the renderer.
pub open spec fn document(markup: Seq<char>) -> Seq<char> {
    DOCTYPE@ + without(without(markup, TEXT_MARKER@), BLOCK_MARKER@)
}

/// Writes `text` so that a browser shows it as text.
pub fn escape(text: &str) -> (out: String)
    ensures
        out@ == escaped(text@),
{
    let v = chars_of(text);
    let mut out = String::new();
    let mut i: usize = 0;
    while i < v.len()
        invariant
            i <= v.len(),
            v@ == text@,
            out@ == escaped(v@.take(i as int)),
        decreases v.len() - i,
    {
        let c = v[i];
        proof {
            assert(v@.take(i + 1).drop_last() =~= v@.take(i as int));
        }
        if c == '&' {
            out.append("&amp;");
        } else if c == '<' {
            out.append("&lt;");
        } else if c == '>' {
            out.append("&gt;");
        } else if c == '"' {
            out.append("&quot;");
        } else if c == '\'' {
            out.append("&#39;");
        } else {
            out.push(c);
            assert(out@ =~= escaped(v@.take(i as int)) + seq![c]);
        }
        i += 1;
    }
    assert(v@.take(i as int) =~= v@);
    out
}

/// Escaped text holds no character that opens or closes a tag or an
/// attribute value.
pub proof fn law_escaped_is_inert(text: Seq<char>)
    ensures
        forall|i: int| 0 <= i < escaped(text).len() ==> !structural(#[trigger] escaped(text)[i]),
    decreases text.len(),
{
    reveal_strlit("&amp;");
    reveal_strlit("&lt;");
    reveal_strlit("&gt;");
    reveal_strlit("&quot;");
    reveal_strlit("&#39;");
    if text.len() > 0 {
        law_escaped_is_inert(text.drop_last());
        let head = escaped(text.drop_last());
        let tail = entity(text.last());
        assert forall|i: int| 0 <= i < escaped(text).len() implies !structural(
            #[trigger] escaped(text)[i],
        ) by {
            if i < head.len() {
                assert(escaped(text)[i] == head[i]);
            } else {
                assert(escaped(text)[i] == tail[i - head.len()]);
            }
        }
    }
}

/// A labelled input field: `name` is its label and id, `ty` its type and
/// `var` the variable of the page's script that it is bound to.
#[allow(non_snake_case)]
pub fn ValueInput(name: &str, ty: &str, var: &str) -> (markup: String)
    ensures
        markup@ == value_input_markup(name@, ty@, var@),
{
    let label = escape(name);
    let kind = escape(ty);
    let bound = escape(var);
    let mut out = String::new();
    out.append(INPUT_LABEL_FOR);
    assert(out@ =~= INPUT_LABEL_FOR@);
    out.append(label.as_str());
    out.append(INPUT_LABEL_TEXT);
    out.append(label.as_str());
    out.append(INPUT_TYPE);
    out.append(kind.as_str());
    out.append(INPUT_ID);
    out.append(label.as_str());
    out.append(INPUT_MODEL);
    out.append(bound.as_str());
    out.append(INPUT_CLOSE);
    out
}

/// The frame of every page: the head with style sheet and script, and the
/// body around `children`, which is markup. `x_data` is the state that the
/// script on the page starts with.
#[allow(non_snake_case)]
pub fn HtmlC(x_data: Option<&str>, children: &str) -> (markup: String)
    ensures
        markup@ == frame_markup(
            match x_data {
                Some(state) => Some(state@),
                None => None,
            },
            children@,
        ),
{
    let mut out = String::new();
    out.append(FRAME_HEAD);
    assert(out@ =~= FRAME_HEAD@);
    match x_data {
        Some(state) => {
            let state = escape(state);
            out.append(FRAME_STATE_OPEN);
            out.append(state.as_str());
            out.append(FRAME_STATE_CLOSE);
        },
        None => {},
    }
    out.append(FRAME_BODY);
    out.append(children);
    out.append(FRAME_FOOT);
    out
}

/// The login page.
#[allow(non_snake_case)]
pub fn Home() -> (markup: String)
    ensures
        markup@ == frame_markup(Some(FORM_STATE@), form_markup()),
{
    let email = ValueInput("Email", "email", "email");
    let password = ValueInput("Password", "password", "pass");
    let mut form = String::new();
    form.append(FORM_OPEN);
    assert(form@ =~= FORM_OPEN@);
    form.append(email.as_str());
    form.append(password.as_str());
    form.append(FORM_BUTTON);
    form.append(FORM_CLOSE);
    HtmlC(Some(FORM_STATE), form.as_str())
}

/// The document that `markup` is served as.
pub fn render(markup: &str) -> (page: String)
    ensures
        page@ == document(markup@),
{
    let plain = remove_all(markup, TEXT_MARKER);
    let plain = remove_all(plain.as_str(), BLOCK_MARKER);
    let mut page = String::new();
    page.append(DOCTYPE);
    assert(page@ =~= DOCTYPE@);
    page.append(plain.as_str());
    page
}

/// The login page as it is served.
pub fn home() -> (page: String)
    ensures
        page@ == document(frame_markup(Some(FORM_STATE@), form_markup())),
{
    let markup = Home();
    render(markup.as_str())
}

} // verus!
