use vstd::prelude::*;

verus! {

/// The compact JSON string literal that serde_json writes for `s`.
pub uninterp spec fn json_str_of(s: Seq<char>) -> Seq<char>;

/// Relies on serde_json: `Value::String` shown through its `Display` impl is
/// the compact JSON literal of the string, quotes and escapes included, and
/// depends on the characters alone.
#[verifier::external_body]
fn json_string(s: &str) -> (r: String)
    ensures
        r@ == json_str_of(s@),
{
    serde_json::Value::String(s.to_string()).to_string()
}

fn cat2(a: &str, b: &str) -> (r: String)
    ensures
        r@ == a@ + b@,
{
    let mut r = String::from_str(a);
    r.append(b);
    r
}

fn cat3(a: &str, b: &str, c: &str) -> (r: String)
    ensures
        r@ == a@ + b@ + c@,
{
    let mut r = cat2(a, b);
    r.append(c);
    r
}

fn cat5(a: &str, b: &str, c: &str, d: &str, e: &str) -> (r: String)
    ensures
        r@ == a@ + b@ + c@ + d@ + e@,
{
    let mut r = cat3(a, b, c);
    r.append(d);
    r.append(e);
    r
}

pub open spec fn html_values_text(id: Seq<char>, html: Seq<char>) -> Seq<char> {
    "{\"values\":{"@ + id + ":{\"html\":"@ + html + ",\"deps\":[]}}}"@
}

pub open spec fn plot_values_text(id: Seq<char>, src: Seq<char>) -> Seq<char> {
    "{\"values\":{"@ + id + ":{\"src\":"@ + src
        + ",\"height\":\"100%\",\"style\":\"object-fit:contain\"}}}"@
}

pub open spec fn notification_text(message: Seq<char>) -> Seq<char> {
    "{\"notification\":{\"type\":\"show\",\"message\":"@ + message + "}}"@
}

pub open spec fn insert_ui_text(selector: Seq<char>, place: Seq<char>, html: Seq<char>) -> Seq<
    char,
> {
    "{\"shiny-insert-ui\":{\"selector\":"@ + selector + ",\"multiple\":false,\"where\":"@ + place
        + ",\"content\":{\"html\":"@ + html + ",\"deps\":[]}}}"@
}

pub open spec fn remove_ui_text(selector: Seq<char>) -> Seq<char> {
    "{\"shiny-remove-ui\":{\"selector\":"@ + selector + ",\"multiple\":false}}"@
}

pub open spec fn javascript_text(code: Seq<char>) -> Seq<char> {
    "{\"javascript\":"@ + code + "}"@
}

pub open spec fn input_message_text(id: Seq<char>, message: Seq<char>) -> Seq<char> {
    "{\"errors\":{},\"values\":{},\"inputMessages\":[{\"id\":"@ + id + ",\"message\":"@ + message
        + "}]}"@
}

/// The value envelope for an HTML output, from the JSON literals of its id
/// and of the fragment.
pub fn html_values_frame(id_json: &str, html_json: &str) -> (r: String)
    ensures
        r@ == html_values_text(id_json@, html_json@),
{
    cat5("{\"values\":{", id_json, ":{\"html\":", html_json, ",\"deps\":[]}}}")
}

/// Sets output `output_id` to the HTML fragment `html`, with no dependencies.
pub fn render_html(output_id: &str, html: &str) -> (r: String)
    ensures
        r@ == html_values_text(json_str_of(output_id@), json_str_of(html@)),
{
    let id = json_string(output_id);
    let h = json_string(html);
    html_values_frame(id.as_str(), h.as_str())
}

/// The value envelope for an image output, from the JSON literals of its id
/// and of the image source.
pub fn plot_values_frame(id_json: &str, src_json: &str) -> (r: String)
    ensures
        r@ == plot_values_text(id_json@, src_json@),
{
    cat5(
        "{\"values\":{",
        id_json,
        ":{\"src\":",
        src_json,
        ",\"height\":\"100%\",\"style\":\"object-fit:contain\"}}}",
    )
}

/// Sets output `output_id` to the image whose source is `plot`.
pub fn render_plot(output_id: &str, plot: &str) -> (r: String)
    ensures
        r@ == plot_values_text(json_str_of(output_id@), json_str_of(plot@)),
{
    let id = json_string(output_id);
    let p = json_string(plot);
    plot_values_frame(id.as_str(), p.as_str())
}

/// Shows a notification whose payload is the JSON text `message_json`.
pub fn show_notification(message_json: &str) -> (r: String)
    ensures
        r@ == notification_text(message_json@),
{
    cat3("{\"notification\":{\"type\":\"show\",\"message\":", message_json, "}}")
}

/// The insertion envelope, from the JSON literals of the selector, the
/// position and the fragment.
pub fn insert_ui_frame(selector_json: &str, where_json: &str, html_json: &str) -> (r: String)
    ensures
        r@ == insert_ui_text(selector_json@, where_json@, html_json@),
{
    let mut r = cat5(
        "{\"shiny-insert-ui\":{\"selector\":",
        selector_json,
        ",\"multiple\":false,\"where\":",
        where_json,
        ",\"content\":{\"html\":",
    );
    r.append(html_json);
    r.append(",\"deps\":[]}}}");
    r
}

/// Inserts the fragment `html` at position `where_` relative to the single
/// element that `selector` picks.
pub fn insert_html(selector: &str, where_: &str, html: &str) -> (r: String)
    ensures
        r@ == insert_ui_text(json_str_of(selector@), json_str_of(where_@), json_str_of(html@)),
{
    let s = json_string(selector);
    let w = json_string(where_);
    let h = json_string(html);
    insert_ui_frame(s.as_str(), w.as_str(), h.as_str())
}

/// The removal envelope, from the JSON literal of the selector.
pub fn remove_ui_frame(selector_json: &str) -> (r: String)
    ensures
        r@ == remove_ui_text(selector_json@),
{
    cat3("{\"shiny-remove-ui\":{\"selector\":", selector_json, ",\"multiple\":false}}")
}

/// Removes the single element that `selector` picks.
pub fn remove_html(selector: &str) -> (r: String)
    ensures
        r@ == remove_ui_text(json_str_of(selector@)),
{
    let s = json_string(selector);
    remove_ui_frame(s.as_str())
}

/// The script envelope, from the JSON literal of the code.
pub fn javascript_frame(code_json: &str) -> (r: String)
    ensures
        r@ == javascript_text(code_json@),
{
    cat3("{\"javascript\":", code_json, "}")
}

/// Runs `code` on the client.
pub fn run_js(code: &str) -> (r: String)
    ensures
        r@ == javascript_text(json_str_of(code@)),
{
    let c = json_string(code);
    javascript_frame(c.as_str())
}

/// The input-control envelope, from the JSON literal of the input id and
/// the JSON text of the message.
pub fn input_message_frame(id_json: &str, args_json: &str) -> (r: String)
    ensures
        r@ == input_message_text(id_json@, args_json@),
{
    cat5(
        "{\"errors\":{},\"values\":{},\"inputMessages\":[{\"id\":",
        id_json,
        ",\"message\":",
        args_json,
        "}]}",
    )
}

/// Updates text input `input_id` with the message whose JSON text is
/// `args_json`.
pub fn update_text_input(input_id: &str, args_json: &str) -> (r: String)
    ensures
        r@ == input_message_text(json_str_of(input_id@), args_json@),
{
    let id = json_string(input_id);
    input_message_frame(id.as_str(), args_json)
}

/// Updates numeric input `input_id` with the message whose JSON text is
/// `args_json`.
pub fn update_numeric_input(input_id: &str, args_json: &str) -> (r: String)
    ensures
        r@ == input_message_text(json_str_of(input_id@), args_json@),
{
    let id = json_string(input_id);
    input_message_frame(id.as_str(), args_json)
}

/// Updates select input `input_id` with the message whose JSON text is
/// `args_json`.
pub fn update_select_input(input_id: &str, args_json: &str) -> (r: String)
    ensures
        r@ == input_message_text(json_str_of(input_id@), args_json@),
{
    let id = json_string(input_id);
    input_message_frame(id.as_str(), args_json)
}

pub open spec fn option_text(name: Seq<char>, value: Seq<char>) -> Seq<char> {
    "<option value=\""@ + value + "\">"@ + name + "</option>"@
}

/// One option element per (name, value) pair, in order, text inserted as it
/// stands.
pub open spec fn options_text(options: Seq<(String, String)>) -> Seq<char>
    decreases options.len(),
{
    if options.len() == 0 {
        Seq::empty()
    } else {
        options_text(options.drop_last()) + option_text(
            options.last().0@,
            options.last().1@,
        )
    }
}

/// The option list of a select input: one `<option>` element per
/// (display name, value) pair, in order. Names and values are inserted
/// verbatim, without escaping.
pub fn select_options(options: Vec<(String, String)>) -> (r: String)
    ensures
        r@ == options_text(options@),
{
    let mut html = String::new();
    let mut i: usize = 0;
    while i < options.len()
        invariant
            i <= options@.len(),
            html@ == options_text(options@.take(i as int)),
        decreases options@.len() - i,
    {
        let pair = &options[i];
        let one = cat5("<option value=\"", pair.1.as_str(), "\">", pair.0.as_str(), "</option>");
        html.append(one.as_str());
        assert(options@.take(i + 1).drop_last() =~= options@.take(i as int));
        i = i + 1;
    }
    assert(options@.take(i as int) =~= options@);
    html
}

/// The id `id` within namespace `namespace`: the two joined by a dash.
pub fn ns(namespace: &str, id: &str) -> (r: String)
    ensures
        r@ == namespace@ + "-"@ + id@,
{
    cat3(namespace, "-", id)
}

} // verus!
