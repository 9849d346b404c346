//! Domain records stored as documents, and how each is written to and read
//! from the store's JSON.

use vstd::prelude::*;
use vstd::string::StringExecFns;

use crate::json::{
    entries_view, lemma_array_view, lemma_object_view, lookup, member, req_str, values_view, Json, JsonV,
};

verus! {

broadcast use vstd::std_specs::vec::group_vec_axioms;

/// A record that can be stored as a document: it encodes to a JSON object and
/// decodes from one.
pub trait DocumentType: Sized {
    /// The JSON the record is stored as.
    spec fn encoded(&self) -> JsonV;

    /// Whether a stored value can be read as a record of this type.
    spec fn decodable(j: JsonV) -> bool;

    /// Whether each field of the record holds what the stored value says of it.
    spec fn agrees_with(&self, j: JsonV) -> bool;

    fn to_json(&self) -> (r: Json)
        ensures
            r@ == self.encoded(),
    ;

    fn from_json(j: &Json) -> (r: Option<Self>)
        ensures
            r is Some <==> Self::decodable(j@),
            r matches Some(d) ==> d.agrees_with(j@),
    ;
}

/// An uninterpreted JSON document is a record of itself.
impl DocumentType for Json {
    open spec fn encoded(&self) -> JsonV {
        self@
    }

    open spec fn decodable(j: JsonV) -> bool {
        true
    }

    open spec fn agrees_with(&self, j: JsonV) -> bool {
        self@ == j
    }

    fn to_json(&self) -> (r: Json) {
        self.duplicate()
    }

    fn from_json(j: &Json) -> (r: Option<Json>) {
        Some(j.duplicate())
    }
}

/// A colour palette of six packed RGB colours.
#[derive(Debug)]
pub struct Palette {
    pub name: String,
    pub color: [u32; 6],
    pub author: String,
    pub description: String,
}

/// The JSON of six colours.
pub open spec fn colors_json(c: Seq<u32>) -> JsonV {
    JsonV::Array(Seq::new(c.len(), |i: int| JsonV::Int(c[i] as u64)))
}

/// Whether a value is an array of six integers that fit in `u32`.
pub open spec fn colors_ok(j: Option<JsonV>) -> bool {
    match j {
        Some(JsonV::Array(xs)) => xs.len() == 6 && forall|i: int|
            0 <= i < 6 ==> (#[trigger] xs[i] matches JsonV::Int(n) && n <= u32::MAX),
        _ => false,
    }
}

fn u32_at(v: &Vec<Json>, i: usize) -> (r: Option<u32>)
    requires
        i < v@.len(),
    ensures
        r matches Some(n) ==> v@[i as int]@ == JsonV::Int(n as u64),
        r is None ==> !(v@[i as int]@ matches JsonV::Int(n) && n <= u32::MAX),
{
    match &v[i] {
        Json::Int(n) => if *n <= 0xffff_ffffu64 {
            Some(*n as u32)
        } else {
            None
        },
        _ => None,
    }
}

fn colors_from(j: Option<&Json>) -> (r: Option<[u32; 6]>)
    ensures
        r is Some <==> colors_ok(match j {
            Some(x) => Some(x@),
            None => None,
        }),
        r matches Some(c) ==> j matches Some(x) && x@ == colors_json(c@),
{
    match j {
        Some(Json::Array(v)) => {
            proof {
                lemma_array_view(*v);
            }
            if v.len() != 6 {
                return None;
            }
            let a = u32_at(v, 0);
            let b = u32_at(v, 1);
            let c = u32_at(v, 2);
            let d = u32_at(v, 3);
            let e = u32_at(v, 4);
            let f = u32_at(v, 5);
            match (a, b, c, d, e, f) {
                (Some(a), Some(b), Some(c), Some(d), Some(e), Some(f)) => {
                    let out = [a, b, c, d, e, f];
                    proof {
                        assert(values_view(v@) =~= Seq::new(out@.len(), |i: int| JsonV::Int(out@[i] as u64)));
                    }
                    Some(out)
                },
                _ => {
                    proof {
                        let xs = values_view(v@);
                        assert(xs[0] == v@[0]@);
                        assert(xs[1] == v@[1]@);
                        assert(xs[2] == v@[2]@);
                        assert(xs[3] == v@[3]@);
                        assert(xs[4] == v@[4]@);
                        assert(xs[5] == v@[5]@);
                    }
                    None
                },
            }
        },
        _ => None,
    }
}

impl Palette {
    pub fn new(name: String, color: [u32; 6], author: String, description: String) -> (r: Palette)
        ensures
            r.name == name,
            r.color == color,
            r.author == author,
            r.description == description,
    {
        Palette { name, color, author, description }
    }
}

impl DocumentType for Palette {
    open spec fn encoded(&self) -> JsonV {
        JsonV::Object(
            seq![
                ("name"@, JsonV::Str(self.name@)),
                ("color"@, colors_json(self.color@)),
                ("author"@, JsonV::Str(self.author@)),
                ("description"@, JsonV::Str(self.description@)),
            ],
        )
    }

    open spec fn decodable(j: JsonV) -> bool {
        &&& req_str(j, "name"@) is Some
        &&& colors_ok(member(j, "color"@))
        &&& req_str(j, "author"@) is Some
        &&& req_str(j, "description"@) is Some
    }

    open spec fn agrees_with(&self, j: JsonV) -> bool {
        &&& req_str(j, "name"@) == Some(self.name@)
        &&& member(j, "color"@) == Some(colors_json(self.color@))
        &&& req_str(j, "author"@) == Some(self.author@)
        &&& req_str(j, "description"@) == Some(self.description@)
    }

    fn to_json(&self) -> (r: Json) {
        let mut colors: Vec<Json> = Vec::new();
        let mut i: usize = 0;
        while i < 6
            invariant
                i <= 6,
                self.color@.len() == 6,
                colors@.len() == i,
                forall|k: int| 0 <= k < i ==> colors@[k]@ == JsonV::Int(self.color@[k] as u64),
            decreases 6 - i,
        {
            colors.push(Json::Int(self.color[i] as u64));
            i = i + 1;
        }
        proof {
            lemma_array_view(colors);
            assert(values_view(colors@) =~= colors_json(self.color@)->Array_0);
        }
        let out = vec![
            (String::from_str("name"), Json::Str(self.name.clone())),
            (String::from_str("color"), Json::Array(colors)),
            (String::from_str("author"), Json::Str(self.author.clone())),
            (String::from_str("description"), Json::Str(self.description.clone())),
        ];
        proof {
            lemma_object_view(out);
            assert(entries_view(out@) =~= self.encoded()->Object_0);
        }
        Json::Object(out)
    }

    fn from_json(j: &Json) -> (r: Option<Palette>) {
        let name = j.str_member("name");
        let color = colors_from(j.get("color"));
        let author = j.str_member("author");
        let description = j.str_member("description");
        match (name, color, author, description) {
            (Some(name), Some(color), Some(author), Some(description)) => Some(
                Palette { name, color, author, description },
            ),
            _ => None,
        }
    }
}

/// A music pack: who made it, what it is, and where its file lies.
#[derive(Debug)]
pub struct MusicPack {
    author: String,
    description: String,
    file_location: String,
}

impl MusicPack {
    pub fn new(author: String, description: String, file_location: String) -> (r: MusicPack)
        ensures
            r.author() == author@,
            r.description() == description@,
            r.file_location() == file_location@,
    {
        MusicPack { author, description, file_location }
    }

    pub closed spec fn author(&self) -> Seq<char> {
        self.author@
    }

    pub closed spec fn description(&self) -> Seq<char> {
        self.description@
    }

    pub closed spec fn file_location(&self) -> Seq<char> {
        self.file_location@
    }
}

impl DocumentType for MusicPack {
    open spec fn encoded(&self) -> JsonV {
        JsonV::Object(
            seq![
                ("author"@, JsonV::Str(self.author())),
                ("description"@, JsonV::Str(self.description())),
                ("file_location"@, JsonV::Str(self.file_location())),
            ],
        )
    }

    open spec fn decodable(j: JsonV) -> bool {
        &&& req_str(j, "author"@) is Some
        &&& req_str(j, "description"@) is Some
        &&& req_str(j, "file_location"@) is Some
    }

    open spec fn agrees_with(&self, j: JsonV) -> bool {
        &&& req_str(j, "author"@) == Some(self.author())
        &&& req_str(j, "description"@) == Some(self.description())
        &&& req_str(j, "file_location"@) == Some(self.file_location())
    }

    fn to_json(&self) -> (r: Json) {
        let out = vec![
            (String::from_str("author"), Json::Str(self.author.clone())),
            (String::from_str("description"), Json::Str(self.description.clone())),
            (String::from_str("file_location"), Json::Str(self.file_location.clone())),
        ];
        proof {
            lemma_object_view(out);
            assert(entries_view(out@) =~= self.encoded()->Object_0);
        }
        Json::Object(out)
    }

    fn from_json(j: &Json) -> (r: Option<MusicPack>) {
        let author = j.str_member("author");
        let description = j.str_member("description");
        let file_location = j.str_member("file_location");
        match (author, description, file_location) {
            (Some(author), Some(description), Some(file_location)) => Some(
                MusicPack { author, description, file_location },
            ),
            _ => None,
        }
    }
}

/// A user account and the palettes, packs and textures it owns.
#[derive(Debug)]
pub struct Account {
    username: String,
    palettes: Vec<String>,
    packs: Vec<String>,
    textures: Vec<String>,
}

/// A blog post.
#[derive(Debug)]
pub struct Post {
    title: String,
    body: String,
    published: bool,
}

impl Post {
    pub closed spec fn title(&self) -> Seq<char> {
        self.title@
    }

    pub closed spec fn body(&self) -> Seq<char> {
        self.body@
    }

    /// The post as markup: the title in a heading, then the body in a
    /// paragraph.
    pub fn to_string(&self) -> (r: String)
        ensures
            r@ == "<h>"@ + self.title() + "<\\h><p>"@ + self.body() + "<\\p>"@,
    {
        let mut s = String::from_str("<h>");
        s.append(self.title.as_str());
        s.append("<\\h><p>");
        s.append(self.body.as_str());
        s.append("<\\p>");
        s
    }
}

/// A palette reads back from what it is written as.
pub proof fn lemma_palette_round_trip(p: Palette)
    ensures
        Palette::decodable(p.encoded()),
        p.agrees_with(p.encoded()),
{
    reveal_strlit("name");
    reveal_strlit("color");
    reveal_strlit("author");
    reveal_strlit("description");
    assert("name"@.len() == 4 && "color"@.len() == 5 && "author"@.len() == 6 && "description"@.len() == 11);
    assert("name"@ != "color"@ && "name"@ != "author"@ && "name"@ != "description"@);
    assert("color"@ != "author"@ && "color"@ != "description"@ && "author"@ != "description"@);
    let es = p.encoded()->Object_0;
    assert(es.drop_first().drop_first().drop_first().drop_first() =~= Seq::<(Seq<char>, JsonV)>::empty());
    assert(lookup(es, "name"@) == Some(JsonV::Str(p.name@)));
    assert(lookup(es.drop_first(), "color"@) == Some(colors_json(p.color@)));
    assert(lookup(es, "color"@) == Some(colors_json(p.color@)));
    assert(lookup(es.drop_first().drop_first(), "author"@) == Some(JsonV::Str(p.author@)));
    assert(lookup(es.drop_first(), "author"@) == Some(JsonV::Str(p.author@)));
    assert(lookup(es, "author"@) == Some(JsonV::Str(p.author@)));
    assert(lookup(es.drop_first().drop_first().drop_first(), "description"@) == Some(
        JsonV::Str(p.description@),
    ));
    assert(lookup(es.drop_first().drop_first(), "description"@) == Some(JsonV::Str(p.description@)));
    assert(lookup(es.drop_first(), "description"@) == Some(JsonV::Str(p.description@)));
    assert(lookup(es, "description"@) == Some(JsonV::Str(p.description@)));
    let xs = colors_json(p.color@)->Array_0;
    assert forall|i: int| 0 <= i < 6 implies (#[trigger] xs[i] matches JsonV::Int(n) && n <= u32::MAX) by {}
}

/// A music pack reads back from what it is written as.
pub proof fn lemma_music_pack_round_trip(m: MusicPack)
    ensures
        MusicPack::decodable(m.encoded()),
        m.agrees_with(m.encoded()),
{
    reveal_strlit("author");
    reveal_strlit("description");
    reveal_strlit("file_location");
    assert("author"@.len() == 6 && "description"@.len() == 11 && "file_location"@.len() == 13);
    assert("author"@ != "description"@ && "author"@ != "file_location"@ && "description"@ != "file_location"@);
    let es = m.encoded()->Object_0;
    assert(lookup(es, "author"@) == Some(JsonV::Str(m.author())));
    assert(lookup(es.drop_first(), "description"@) == Some(JsonV::Str(m.description())));
    assert(lookup(es, "description"@) == Some(JsonV::Str(m.description())));
    assert(lookup(es.drop_first().drop_first(), "file_location"@) == Some(JsonV::Str(m.file_location())));
    assert(lookup(es.drop_first(), "file_location"@) == Some(JsonV::Str(m.file_location())));
    assert(lookup(es, "file_location"@) == Some(JsonV::Str(m.file_location())));
}

} // verus!
