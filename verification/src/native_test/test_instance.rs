//! The files of an instance of the virtual machine.
use crate::text;
use vstd::prelude::*;

verus! {

/// The root of the data directory.
pub const DATA_ROOT: &'static str = "/data/local/tmp";

/// The name of the instance image file.
pub const INSTANCE_IMAGE_FILE: &'static str = "instance.img";

/// The file that holds the signature of the payload's package.
pub const IDSIG_FILE: &'static str = "idsig";

/// The library that holds the payload.
pub const TEST_PAYLOAD_NAME: &'static str = "libtest_payload_rs.so";

/// The package that holds the payload.
pub const TEST_PAYLOAD_APP: &'static str = "EmptyTestPayloadApp";

/// The size of an instance image in bytes.
pub const INSTANCE_IMAGE_SIZE: i64 = 10485760;

/// An instance of the virtual machine with the paths of its files.
#[derive(Debug)]
pub struct TestInstance {
    pub instance_name: String,
    pub instance_root: String,
    pub instance_image: String,
    pub idsig: String,
}

/// What an instance is.
pub struct TestInstanceView {
    pub instance_name: Seq<char>,
    pub instance_root: Seq<char>,
    pub instance_image: Seq<char>,
    pub idsig: Seq<char>,
}

impl View for TestInstance {
    type V = TestInstanceView;

    open spec fn view(&self) -> TestInstanceView {
        TestInstanceView {
            instance_name: self.instance_name@,
            instance_root: self.instance_root@,
            instance_image: self.instance_image@,
            idsig: self.idsig@,
        }
    }
}

/// The instance without a name and without files.
pub open spec fn empty_instance() -> TestInstanceView {
    TestInstanceView {
        instance_name: Seq::empty(),
        instance_root: Seq::empty(),
        instance_image: Seq::empty(),
        idsig: Seq::empty(),
    }
}

/// The instance of the given name: its directory under the data directory, and its files in
/// there.
pub open spec fn instance_named(name: Seq<char>) -> TestInstanceView {
    let root = text::joined(DATA_ROOT@, name);
    TestInstanceView {
        instance_name: name,
        instance_root: root,
        instance_image: text::joined(root, INSTANCE_IMAGE_FILE@),
        idsig: text::joined(root, IDSIG_FILE@),
    }
}

impl TestInstance {
    /// An instance without a name and without files.
    pub fn new() -> (r: TestInstance)
        ensures
            r@ == empty_instance(),
    {
        TestInstance {
            instance_name: String::new(),
            instance_root: String::new(),
            instance_image: String::new(),
            idsig: String::new(),
        }
    }

    /// The instance of the given name.
    pub fn named(instance_name: String) -> (r: TestInstance)
        ensures
            r@ == instance_named(instance_name@),
    {
        let instance_root = text::join(DATA_ROOT, instance_name.as_str());
        let instance_image = text::join(instance_root.as_str(), INSTANCE_IMAGE_FILE);
        let idsig = text::join(instance_root.as_str(), IDSIG_FILE);
        TestInstance { instance_name, instance_root, instance_image, idsig }
    }
}

impl Default for TestInstance {
    fn default() -> (r: Self)
        ensures
            r@ == empty_instance(),
    {
        TestInstance::new()
    }
}

/// The files of an instance lie in its directory, and their paths differ.
pub proof fn files_lie_in_the_root(name: Seq<char>)
    ensures
        ({
            let i = instance_named(name);
            &&& text::has_prefix(i.instance_image, i.instance_root)
            &&& text::has_prefix(i.idsig, i.instance_root)
            &&& i.instance_image != i.idsig
        }),
{
    let i = instance_named(name);
    reveal_strlit("instance.img");
    reveal_strlit("idsig");
    assert(i.instance_image.take(i.instance_root.len() as int) =~= i.instance_root);
    assert(i.idsig.take(i.instance_root.len() as int) =~= i.instance_root);
    assert(i.instance_image.len() != i.idsig.len());
}

/// An instance whose name is an absolute path has that path as its directory.
pub proof fn absolute_name_is_the_root(name: Seq<char>)
    requires
        name.len() > 0,
        name[0] == '/',
    ensures
        instance_named(name).instance_root == name,
{
}

/// The directory of an instance whose name is no absolute path lies in the data directory
/// under that name, and its files in there have fixed names.
pub proof fn named_directory_holds_the_files(name: Seq<char>)
    requires
        name.len() > 0,
        name[0] != '/',
        name.last() != '/',
    ensures
        instance_named(name).instance_name == name,
        instance_named(name).instance_root == "/data/local/tmp/"@ + name,
        instance_named(name).instance_image == "/data/local/tmp/"@ + name + "/instance.img"@,
        instance_named(name).idsig == "/data/local/tmp/"@ + name + "/idsig"@,
{
    reveal_strlit("/data/local/tmp");
    reveal_strlit("/data/local/tmp/");
    reveal_strlit("instance.img");
    reveal_strlit("/instance.img");
    reveal_strlit("idsig");
    reveal_strlit("/idsig");
    let root = "/data/local/tmp/"@ + name;
    assert(instance_named(name).instance_root =~= root);
    assert(root.last() == name.last());
    assert(instance_named(name).instance_image =~= root + "/instance.img"@);
    assert(instance_named(name).idsig =~= root + "/idsig"@);
}

/// Instances of different names, none of which is an absolute path, have different
/// directories, and every instance keeps its name.
pub proof fn directories_tell_names_apart(a: Seq<char>, b: Seq<char>)
    requires
        a.len() == 0 || a[0] != '/',
        b.len() == 0 || b[0] != '/',
    ensures
        instance_named(a).instance_name == a,
        a != b ==> instance_named(a).instance_root != instance_named(b).instance_root,
{
    reveal_strlit("/data/local/tmp");
    let head = "/data/local/tmp"@.push('/');
    assert(instance_named(a).instance_root =~= head + a);
    assert(instance_named(b).instance_root =~= head + b);
    assert((head + a).skip(head.len() as int) =~= a);
    assert((head + b).skip(head.len() as int) =~= b);
}

/// An instance of an absolute name has its files in that directory.
pub proof fn absolute_name_holds_the_files(name: Seq<char>)
    requires
        name.len() > 0,
        name[0] == '/',
        name.last() != '/',
    ensures
        instance_named(name).instance_image == name + "/instance.img"@,
        instance_named(name).idsig == name + "/idsig"@,
{
    reveal_strlit("instance.img");
    reveal_strlit("/instance.img");
    reveal_strlit("idsig");
    reveal_strlit("/idsig");
    assert(instance_named(name).instance_image =~= name + "/instance.img"@);
    assert(instance_named(name).idsig =~= name + "/idsig"@);
}

/// An instance without a name has neither a directory nor files.
pub proof fn empty_instance_has_nothing()
    ensures
        empty_instance().instance_name.len() == 0,
        empty_instance().instance_root.len() == 0,
        empty_instance().instance_image.len() == 0,
        empty_instance().idsig.len() == 0,
{
}

} // verus!
