use vstd::prelude::*;
use vstd::string::StringExecFns;

verus! {

/// The parameters of a document-parsing request.
#[derive(Debug)]
pub struct MinerURequest {
    pub output_dir: String,
    pub lang_list: Vec<String>,
    pub backend: String,
    pub parse_method: String,
    pub formula_enable: bool,
    pub table_enable: bool,
    pub return_md: bool,
    pub return_middle_json: bool,
    pub return_model_output: bool,
    pub return_content_list: bool,
    pub return_images: bool,
    pub response_format_zip: bool,
    pub start_page_id: u32,
    pub end_page_id: u32,
}

impl Default for MinerURequest {
    fn default() -> (r: MinerURequest)
        ensures
            r.output_dir@ == "./output"@,
            r.lang_list@.len() == 1,
            r.lang_list@[0]@ == "en"@,
            r.backend@ == "pipeline"@,
            r.parse_method@ == "ocr"@,
            r.formula_enable,
            r.table_enable,
            r.return_md,
            !r.return_middle_json,
            !r.return_model_output,
            !r.return_content_list,
            !r.return_images,
            !r.response_format_zip,
            r.start_page_id == 0,
            r.end_page_id == 99999,
    {
        MinerURequest {
            output_dir: String::from_str("./output"),
            lang_list: vec![String::from_str("en")],
            backend: String::from_str("pipeline"),
            parse_method: String::from_str("ocr"),
            formula_enable: true,
            table_enable: true,
            return_md: true,
            return_middle_json: false,
            return_model_output: false,
            return_content_list: false,
            return_images: false,
            response_format_zip: false,
            start_page_id: 0,
            end_page_id: 99999,
        }
    }
}

/// `true` or `false`, as text.
pub open spec fn bool_spec(b: bool) -> Seq<char> {
    if b {
        "true"@
    } else {
        "false"@
    }
}

/// The digit that stands for `d`, for `d < 10`.
pub open spec fn digit_spec(d: nat) -> char {
    if d == 0 {
        '0'
    } else if d == 1 {
        '1'
    } else if d == 2 {
        '2'
    } else if d == 3 {
        '3'
    } else if d == 4 {
        '4'
    } else if d == 5 {
        '5'
    } else if d == 6 {
        '6'
    } else if d == 7 {
        '7'
    } else if d == 8 {
        '8'
    } else {
        '9'
    }
}

/// `n` in decimal, with no leading zeros.
pub open spec fn decimal_spec(n: nat) -> Seq<char>
    decreases n,
{
    if n < 10 {
        seq![digit_spec(n)]
    } else {
        decimal_spec(n / 10).push(digit_spec(n % 10))
    }
}

/// `items` joined with `sep` between each two.
pub open spec fn join_spec(items: Seq<Seq<char>>, sep: Seq<char>) -> Seq<char>
    decreases items.len(),
{
    if items.len() == 0 {
        Seq::empty()
    } else if items.len() == 1 {
        items[0]
    } else {
        join_spec(items.drop_last(), sep) + sep + items.last()
    }
}

/// The text of `b`.
pub fn bool_text(b: bool) -> (r: String)
    ensures
        r@ == bool_spec(b),
{
    if b {
        String::from_str("true")
    } else {
        String::from_str("false")
    }
}

fn digit_text(d: u32) -> (r: &'static str)
    requires
        d < 10,
    ensures
        r@ == seq![digit_spec(d as nat)],
{
    proof {
        reveal_strlit("0");
        reveal_strlit("1");
        reveal_strlit("2");
        reveal_strlit("3");
        reveal_strlit("4");
        reveal_strlit("5");
        reveal_strlit("6");
        reveal_strlit("7");
        reveal_strlit("8");
        reveal_strlit("9");
    }
    if d == 0 {
        "0"
    } else if d == 1 {
        "1"
    } else if d == 2 {
        "2"
    } else if d == 3 {
        "3"
    } else if d == 4 {
        "4"
    } else if d == 5 {
        "5"
    } else if d == 6 {
        "6"
    } else if d == 7 {
        "7"
    } else if d == 8 {
        "8"
    } else {
        "9"
    }
}

/// `n` in decimal.
pub fn decimal_text(n: u32) -> (r: String)
    ensures
        r@ == decimal_spec(n as nat),
    decreases n,
{
    if n < 10 {
        String::from_str(digit_text(n))
    } else {
        let mut s = decimal_text(n / 10);
        s.append(digit_text(n % 10));
        s
    }
}

/// `items` joined with `sep`.
pub fn join_text(items: &Vec<String>, sep: &str) -> (r: String)
    ensures
        r@ == join_spec(items@.map_values(|s: String| s@), sep@),
{
    let ghost views = items@.map_values(|s: String| s@);
    let mut out = String::new();
    let mut i: usize = 0;
    while i < items.len()
        invariant
            i <= items@.len(),
            views == items@.map_values(|s: String| s@),
            out@ == join_spec(views.subrange(0, i as int), sep@),
        decreases items@.len() - i,
    {
        proof {
            let next = views.subrange(0, i as int + 1);
            assert(next.drop_last() =~= views.subrange(0, i as int));
            assert(next.last() == items@[i as int]@);
            if i == 0 {
                assert(next.len() == 1);
            }
        }
        if i > 0 {
            out.append(sep);
        }
        out.append(items[i].as_str());
        i = i + 1;
    }
    assert(views.subrange(0, items@.len() as int) =~= views);
    out
}

impl MinerURequest {
    /// The text fields of the request form, by name, in the order they are sent.
    pub fn form_fields(&self) -> (r: Vec<(String, String)>)
        ensures
            r@.len() == 14,
            r@[0].0@ == "output_dir"@ && r@[0].1@ == self.output_dir@,
            r@[1].0@ == "lang_list"@ && r@[1].1@ == join_spec(
                self.lang_list@.map_values(|s: String| s@),
                ","@,
            ),
            r@[2].0@ == "backend"@ && r@[2].1@ == self.backend@,
            r@[3].0@ == "parse_method"@ && r@[3].1@ == self.parse_method@,
            r@[4].0@ == "formula_enable"@ && r@[4].1@ == bool_spec(self.formula_enable),
            r@[5].0@ == "table_enable"@ && r@[5].1@ == bool_spec(self.table_enable),
            r@[6].0@ == "return_md"@ && r@[6].1@ == bool_spec(self.return_md),
            r@[7].0@ == "return_middle_json"@ && r@[7].1@ == bool_spec(self.return_middle_json),
            r@[8].0@ == "return_model_output"@ && r@[8].1@ == bool_spec(self.return_model_output),
            r@[9].0@ == "return_content_list"@ && r@[9].1@ == bool_spec(self.return_content_list),
            r@[10].0@ == "return_images"@ && r@[10].1@ == bool_spec(self.return_images),
            r@[11].0@ == "response_format_zip"@ && r@[11].1@ == bool_spec(self.response_format_zip),
            r@[12].0@ == "start_page_id"@ && r@[12].1@ == decimal_spec(self.start_page_id as nat),
            r@[13].0@ == "end_page_id"@ && r@[13].1@ == decimal_spec(self.end_page_id as nat),
    {
        let mut r: Vec<(String, String)> = Vec::new();
        r.push((String::from_str("output_dir"), self.output_dir.clone()));
        r.push((String::from_str("lang_list"), join_text(&self.lang_list, ",")));
        r.push((String::from_str("backend"), self.backend.clone()));
        r.push((String::from_str("parse_method"), self.parse_method.clone()));
        r.push((String::from_str("formula_enable"), bool_text(self.formula_enable)));
        r.push((String::from_str("table_enable"), bool_text(self.table_enable)));
        r.push((String::from_str("return_md"), bool_text(self.return_md)));
        r.push((String::from_str("return_middle_json"), bool_text(self.return_middle_json)));
        r.push((String::from_str("return_model_output"), bool_text(self.return_model_output)));
        r.push((String::from_str("return_content_list"), bool_text(self.return_content_list)));
        r.push((String::from_str("return_images"), bool_text(self.return_images)));
        r.push((String::from_str("response_format_zip"), bool_text(self.response_format_zip)));
        r.push((String::from_str("start_page_id"), decimal_text(self.start_page_id)));
        r.push((String::from_str("end_page_id"), decimal_text(self.end_page_id)));
        r
    }
}

/// The parsed content of one file.
#[derive(Debug)]
pub struct FileContent {
    pub md_content: String,
}

/// A parsing service's answer: the content of each file, in the order given.
#[derive(Debug)]
pub struct MinerUResponse {
    results: Vec<(String, FileContent)>,
}

impl View for MinerUResponse {
    type V = Seq<(Seq<char>, Seq<char>)>;

    closed spec fn view(&self) -> Seq<(Seq<char>, Seq<char>)> {
        self.results@.map_values(|e: (String, FileContent)| (e.0@, e.1.md_content@))
    }
}

impl MinerUResponse {
    /// An answer holding `results`, each a file name with its content.
    pub fn new(results: Vec<(String, FileContent)>) -> (r: MinerUResponse)
        ensures
            r@ == results@.map_values(|e: (String, FileContent)| (e.0@, e.1.md_content@)),
    {
        MinerUResponse { results }
    }

    /// Takes out the first file's content, or `None` where there is none.
    pub fn get_markdown(&mut self) -> (r: Option<String>)
        ensures
            old(self)@.len() == 0 ==> r is None && final(self)@ == old(self)@,
            old(self)@.len() > 0 ==> r is Some && r->Some_0@ == old(self)@[0].1 && final(self)@
                == old(self)@.drop_first(),
    {
        if self.results.len() == 0 {
            None
        } else {
            let (_, content) = self.results.remove(0);
            proof {
                assert(self@ =~= old(self)@.drop_first());
            }
            Some(content.md_content)
        }
    }
}

} // verus!
