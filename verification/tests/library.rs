use slowhand::assets::{
    file_in_second_part, get_image_size, get_mime_type, image_asset_from_upload, sha1_hex,
    upload_kind, ImageAsset, ImageSizeError, UploadKind,
};
use slowhand::config::{add_extension, assets_dir, db_path, join_path, schema_path, Config};
use slowhand::schema::{BaseType, Field, FieldType, Object, Preview, Schema};
use slowhand::schema_gql::{GqlType, Resolver};
use slowhand::store::{
    join_strings, migration_batch, exists_from_count, get_migrations, id_from_bytes, write_kind, Doc, WriteKind,
};
use slowhand::text::{decimal_string, to_hex_lower};
use std::path::PathBuf;

#[test]
fn new_schema_is_empty() {
    let s = Schema::new("ds", PathBuf::from("/b"));
    assert_eq!(s.name, "ds");
    assert!(s.objects.is_empty());
    assert!(s.object_types.is_empty());
    assert!(s.documents().is_empty());
    assert!(s.get_object("x").is_none());
}

#[test]
fn lookup_after_add_finds_the_added_object() {
    let mut s = Schema::new("ds", PathBuf::new());
    s.add_object(Object::new("post", BaseType::Doc));
    s.add_object(Object::new("pic", BaseType::Image));
    let mut replaced = Object::new("post", BaseType::Doc);
    replaced.title = "Post".to_string();
    s.add_object(replaced);
    assert_eq!(s.objects.len(), 2);
    assert_eq!(s.get_object("post").unwrap().title, "Post");
    assert_eq!(s.get_object("pic").unwrap().base_type, BaseType::Image);
    assert_eq!(s.object_types, vec!["post", "post"]);
    assert_eq!(s.image_types(), &vec!["pic".to_string()]);
    assert_eq!(s.document_types, vec!["post", "post"]);
    let docs = s.documents();
    assert_eq!(docs.len(), 2);
    assert_eq!(docs[0].title, "Post");
    assert_eq!(docs[1].title, "Post");
}

#[test]
fn kinds_go_to_their_lists() {
    let mut s = Schema::new("ds", PathBuf::new());
    s.add_object(Object::new("img", BaseType::Image));
    s.add_object(Object::new("doc", BaseType::File));
    assert!(s.object_types.is_empty());
    assert!(s.document_types.is_empty());
    assert_eq!(s.image_types(), &vec!["img".to_string()]);
    assert_eq!(s.file_types(), &vec!["doc".to_string()]);
    s.add_object(Object::new("plain", BaseType::Object));
    s.add_object(Object::new("act", BaseType::Action));
    s.add_object(Object::new("page", BaseType::Doc));
    assert_eq!(s.object_types, vec!["plain", "act", "page"]);
    assert_eq!(s.document_types, vec!["page"]);
    assert!(s.reference_types().is_empty());
}

#[test]
fn constructors_leave_parts_empty() {
    let o = Object::new("thing", BaseType::File);
    assert_eq!(o.name, "thing");
    assert_eq!(o.base_type, BaseType::File);
    assert_eq!(o.title, "");
    assert!(o.fields.is_empty() && o.actions.is_empty());
    assert_eq!(o.preview.title, "");
    let o2 = Object::from_kdl("k", BaseType::Action);
    assert_eq!(o2.base_type, BaseType::Action);
    let f = Field::new("n", FieldType::Url);
    assert_eq!(f.name, "n");
    assert!(matches!(f.field_type, FieldType::Url));
    assert!(!f.hidden && !f.read_only);
    assert!(f.to.is_empty() && f.of.is_empty());
    let p = Preview::new("t".to_string());
    assert_eq!(p.title, "t");
    assert!(p.subtitle.is_none() && p.media.is_none() && p.fun.is_none() && p.select.is_empty());
    assert_eq!(BaseType::default(), BaseType::Object);
}

#[test]
fn migrations_drop_comments_and_trim() {
    let sql = "# header\n----\nCREATE TABLE docs (_id TEXT);\n----\n  CREATE INDEX i ON docs(_id);  \n----\n#skip me\n----";
    let m = get_migrations(sql);
    assert_eq!(
        m,
        vec![
            "CREATE TABLE docs (_id TEXT);".to_string(),
            "CREATE INDEX i ON docs(_id);".to_string(),
            "".to_string(),
        ]
    );
    assert_eq!(get_migrations(""), vec!["".to_string()]);
    assert_eq!(get_migrations("a-----b"), vec!["a".to_string(), "-b".to_string()]);
    assert_eq!(get_migrations("\u{3000}x\u{85}"), vec!["x".to_string()]);
}

#[test]
fn ids_are_url_safe_base64() {
    assert_eq!(id_from_bytes(&[0xfb, 0xff, 0xbf]), "-_-_");
    assert_eq!(id_from_bytes(&[0x4d]), "TQ");
    assert_eq!(id_from_bytes(&[0x4d, 0x61]), "TWE");
    assert_eq!(id_from_bytes(b"Man"), "TWFu");
    assert_eq!(id_from_bytes(&[]), "");
    let id = Doc::gen_id();
    assert_eq!(id.len(), 22);
    assert!(id.chars().all(|c| c.is_ascii_alphanumeric() || c == '-' || c == '_'));
    assert_ne!(Doc::gen_id(), id);
    assert_eq!(Doc::default_type(), "_idk");
}

#[test]
fn write_decisions() {
    assert_eq!(write_kind(true), WriteKind::Update);
    assert_eq!(write_kind(false), WriteKind::Insert);
    assert!(exists_from_count(2));
    assert!(!exists_from_count(0));
}

#[test]
fn digits_and_hex() {
    assert_eq!(decimal_string(0), "0");
    assert_eq!(decimal_string(800), "800");
    assert_eq!(decimal_string(1234567), "1234567");
    assert_eq!(to_hex_lower(&[0x00, 0x9f, 0xa0, 0xff]), "009fa0ff");
    assert_eq!(sha1_hex(b"abc"), "a9993e364706816aba3e25717850c26c9cd0d89d");
}

#[test]
fn mime_type_from_leading_bytes() {
    let (m, e) = get_mime_type(&[0xFF, 0xD8, 0xFF, 0xAA]);
    assert_eq!(m, "image/jpeg");
    assert_eq!(e, "jpg");
    let (m, e) = get_mime_type(b"plain words");
    assert_eq!(m, "application/octetstream");
    assert_eq!(e, "");
}

fn tiny_png() -> Vec<u8> {
    let mut v = vec![0x89, b'P', b'N', b'G', 0x0D, 0x0A, 0x1A, 0x0A];
    v.extend_from_slice(&[0, 0, 0, 13]);
    v.extend_from_slice(b"IHDR");
    v.extend_from_slice(&800u32.to_be_bytes());
    v.extend_from_slice(&600u32.to_be_bytes());
    v.extend_from_slice(&[8, 2, 0, 0, 0, 0, 0, 0, 0]);
    v
}

#[test]
fn image_size_and_asset() {
    let png = tiny_png();
    assert_eq!(get_image_size(&png).unwrap(), (800, 600));
    assert_eq!(get_image_size(b"not an image"), Err(ImageSizeError::NotSupported));
    let a = image_asset_from_upload(&"shop".to_string(), "cat.png".to_string(), &png).unwrap();
    let hash = sha1_hex(&png);
    assert_eq!(a._id, hash);
    assert_eq!(a.mime_type, "image/png");
    assert_eq!(a.extension, "png");
    assert_eq!(a.path, format!("{}-800x600.png", hash));
    assert_eq!(a.asset_id, format!("{}-800x600-png", hash));
    assert_eq!(a.url, format!("/images/shop/{}-800x600.png", hash));
    assert_eq!(a.size, png.len());
    assert_eq!(a.original_filename, "cat.png");
    assert!(image_asset_from_upload(&"shop".to_string(), String::new(), b"zz").is_err());
}

#[test]
fn asset_record_fields() {
    let a = ImageAsset::new_from_upload(
        &"p".to_string(),
        &"949aff".to_string(),
        &"jpg".to_string(),
        &"image/jpeg".to_string(),
        10,
        "orig.jpg".to_string(),
        800,
        600,
    );
    assert_eq!(a._id, "949aff");
    assert_eq!(a._type, "_sh.asset");
    assert_eq!(a.asset_id, "949aff-800x600-jpg");
    assert_eq!(a.path, "949aff-800x600.jpg");
    assert_eq!(a.url, "/images/p/949aff-800x600.jpg");
    assert_eq!(a.upload_id, "");
    assert_eq!(a.sha1hash, "949aff");
    assert_eq!((a.width, a.height, a.size), (800, 600, 10));
}

#[test]
fn upload_kinds() {
    assert_eq!(upload_kind("multipart/form-data; boundary=x"), UploadKind::Multipart);
    assert_eq!(upload_kind("image/jpeg"), UploadKind::Jpeg);
    assert_eq!(upload_kind("image/png"), UploadKind::Unsupported);
    assert!(file_in_second_part("filepond"));
    assert!(!file_in_second_part("file"));
}

#[test]
fn paths() {
    let c = Config::new("/srv/slow".to_string());
    assert_eq!(c.var, "/srv/slow/var");
    assert_eq!(c.projects, "/srv/slow/projects");
    assert_eq!(join_path("a/", "b"), "a/b");
    assert_eq!(join_path("", "b"), "b");
    assert_eq!(join_path("a", "/b"), "/b");
    assert_eq!(db_path("/v", "_system"), "/v/_system.db");
    assert_eq!(db_path("var", ""), "var.db");
    assert_eq!(db_path("var", ".."), "var/..");
    assert_eq!(db_path("/v", "a/"), "/v/a.db");
    assert_eq!(db_path("/v", "a/."), "/v/a.db");
    assert_eq!(add_extension("".to_string(), "db"), "");
    assert_eq!(add_extension("/".to_string(), "db"), "/");
    assert_eq!(add_extension("x.tar".to_string(), "gz"), "x.tar.gz");
    assert_eq!(add_extension("x".to_string(), ""), "x");
    assert_eq!(assets_dir("/v", "shop"), "/v/assets/shop");
    assert_eq!(schema_path("/p", "movies"), "/p/movies/movies.kdl");
}

#[test]
fn graphql_plan() {
    let schema = Schema::parse_kdl(
        "doc movie \"Movie\" description=\"Films\" {\n boolean seen\n slug slug\n person lead\n}\nobject person\n"
            .to_string(),
        "m",
        &PathBuf::new(),
    )
    .unwrap();
    let plan = schema.build_gql_schema();
    assert_eq!(plan.query, "Query");
    // interface, two enums, three default objects, the input, two objects, the query
    assert_eq!(plan.types.len(), 10);
    let movie = match &plan.types[7] {
        GqlType::Object(o) => o.clone(),
        _ => panic!("objects follow the defaults"),
    };
    assert_eq!(movie.name, "movie");
    assert_eq!(movie.description.as_deref(), Some("Films"));
    assert_eq!(movie.implements, vec!["Document"]);
    assert_eq!(movie.key.as_deref(), Some("_id"));
    let names: Vec<&str> = movie.fields.iter().map(|f| f.name.as_str()).collect();
    assert_eq!(names, vec!["seen", "slug", "lead", "_id", "_type", "_rev"]);
    assert_eq!(movie.fields[0].ty.name, "Boolean");
    assert_eq!(movie.fields[1].resolver, Resolver::Object);
    assert_eq!(movie.fields[2].ty.name, "person");
    assert!(movie.fields[3].ty.non_null);
    let query = match &plan.types[9] {
        GqlType::Object(o) => o.clone(),
        _ => panic!("the query comes last"),
    };
    assert_eq!(query.name, "Query");
    assert_eq!(query.fields.len(), 2);
    assert_eq!(query.fields[0].name, "movie");
    assert_eq!(query.fields[0].args[0].name, "id");
    assert_eq!(query.fields[1].name, "allmovie");
    assert_eq!(query.fields[1].resolver, Resolver::EntityList);
}

#[test]
fn migration_batch_joins_statements() {
    assert_eq!(migration_batch("# c\n----\nA\n----\nB"), "A;\nB");
    assert_eq!(
        join_strings(&vec!["x".to_string(), "y".to_string(), "z".to_string()], ", "),
        "x, y, z"
    );
    assert_eq!(join_strings(&vec![], ", "), "");
}
