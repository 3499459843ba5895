use sentinel::runtime::Runtime;
use sentinel::structure::{FolderPresence, Identity, Loader, ProjectStructure, Validator};

fn all_present() -> FolderPresence {
    FolderPresence {
        describe: true,
        pages: true,
        index_page: true,
        apis: true,
        work: true,
    }
}

fn entries(names: &[&str]) -> Vec<String> {
    names.iter().map(|n| n.to_string()).collect()
}

#[test]
fn structure_lays_out_the_expected_folders() {
    let structure = ProjectStructure::new("proj");
    assert_eq!(structure.root, "proj");
    assert_eq!(structure.describe.path, "proj/Describe");
    assert_eq!(structure.pages.path, "proj/Pages");
    assert_eq!(structure.pages.index_page, "proj/Pages/Index.rs");
    assert_eq!(structure.apis.path, "proj/APIs");
    assert_eq!(structure.work.path, "proj/Work");
}

#[test]
fn presence_check_passes_when_everything_exists() {
    let structure = ProjectStructure::new("proj");
    assert_eq!(structure.validate(&all_present()), Ok(()));
}

#[test]
fn presence_check_reports_the_first_missing_piece() {
    let structure = ProjectStructure::new("proj");
    let mut p = all_present();
    p.describe = false;
    p.pages = false;
    assert_eq!(
        structure.validate(&p),
        Err("Missing Describe/ folder".to_string())
    );
    let mut p = all_present();
    p.index_page = false;
    assert_eq!(
        structure.validate(&p),
        Err("Missing Pages/Index.rs".to_string())
    );
    let mut p = all_present();
    p.work = false;
    assert_eq!(structure.validate(&p), Err("Missing Work/ folder".to_string()));
}

#[test]
fn loader_builds_page_template_paths() {
    let loader = Loader::new("proj");
    let (html, css, js) = loader.page_template_paths("Home");
    assert_eq!(html, "proj/Pages/Home.html");
    assert_eq!(css, "proj/Pages/Home.css");
    assert_eq!(js, "proj/Pages/Home.js");
    assert_eq!(loader.config_path("identity.json"), "proj/Describe/identity.json");
}

#[test]
fn index_check_requires_nonblank_content() {
    let validator = Validator::new(ProjectStructure::new("proj"));
    assert_eq!(
        validator.validate_index(None),
        Err("Missing Pages/Index.rs".to_string())
    );
    assert_eq!(
        validator.validate_index(Some("  \n\t ")),
        Err("Pages/Index.rs is empty".to_string())
    );
    assert_eq!(validator.validate_index(Some("fn main() {}")), Ok(()));
}

#[test]
fn template_check_requires_css_and_js_siblings() {
    let validator = Validator::new(ProjectStructure::new("proj"));
    assert_eq!(
        validator.validate_templates(&entries(&["Home.html", "Home.css", "Home.js"])),
        Ok(())
    );
    assert_eq!(
        validator.validate_templates(&entries(&["Home.html", "Home.js"])),
        Err("Missing CSS for page Home".to_string())
    );
    assert_eq!(
        validator.validate_templates(&entries(&["Home.html", "Home.css"])),
        Err("Missing JS for page Home".to_string())
    );
    // Entries that are not pages are ignored.
    assert_eq!(
        validator.validate_templates(&entries(&["notes.txt", "data.json"])),
        Ok(())
    );
}

#[test]
fn runtime_validates_the_whole_project_in_order() {
    let runtime: Runtime<sentinel::extensions::PassThrough> = Runtime::new("proj");
    let mut missing = all_present();
    missing.apis = false;
    assert_eq!(
        runtime.validate(&missing, Some("fn main() {}"), &entries(&[])),
        Err("Missing APIs/ folder".to_string())
    );
    assert_eq!(
        runtime.validate(&all_present(), None, &entries(&[])),
        Err("Missing Pages/Index.rs".to_string())
    );
    assert_eq!(
        runtime.validate(
            &all_present(),
            Some("fn main() {}"),
            &entries(&["A.html", "A.css", "A.js"])
        ),
        Ok(())
    );
}

#[test]
fn runtime_installs_identity_metadata() {
    let mut runtime: Runtime<sentinel::extensions::PassThrough> = Runtime::new("proj");
    assert!(runtime.identity.is_none());
    runtime.load_identity(Identity {
        name: "demo".to_string(),
        version: "1.0".to_string(),
        author: "dev".to_string(),
        description: "a demo".to_string(),
        extra: Vec::new(),
    });
    assert_eq!(runtime.identity.as_ref().unwrap().name, "demo");
}
