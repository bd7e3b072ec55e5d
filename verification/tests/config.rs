use css_module_imports::{
    process_transform, resolve, CssSuffixConfig, ImportDecl, Module, Node, PluginConfig,
    SourceLiteral, TransformVisitor,
};

fn import(specifiers: usize, path: &str) -> ImportDecl {
    ImportDecl { specifiers, src: SourceLiteral { value: path.to_string(), raw: None } }
}

fn marked(specifiers: usize, path: &str) -> ImportDecl {
    ImportDecl {
        specifiers,
        src: SourceLiteral { value: path.to_string(), raw: Some(format!("\"{}\"", path)) },
    }
}

fn strings(items: &[&str]) -> Vec<String> {
    items.iter().map(|s| s.to_string()).collect()
}

fn after(rules: &mut TransformVisitor, specifiers: usize, path: &str) -> String {
    let mut decl = import(specifiers, path);
    rules.visit_mut_import_decl(&mut decl);
    decl.src.value
}

#[test]
fn missing_configuration_gives_the_defaults() {
    let rules = resolve(None);
    assert_eq!(rules.css_suffix(), &strings(&[".css", ".less", ".scss", ".sass"]));
    assert_eq!(rules.file_suffix(), "css_modules");
}

#[test]
fn empty_configuration_gives_the_defaults() {
    let rules = resolve(Some(PluginConfig { css_suffix: None, file_suffix: None }));
    assert_eq!(rules.css_suffix(), &strings(&[".css", ".less", ".scss", ".sass"]));
    assert_eq!(rules.file_suffix(), "css_modules");
}

#[test]
fn missing_configuration_marks_scss() {
    let mut rules = resolve(None);
    assert_eq!(after(&mut rules, 1, "x.scss"), "x.scss?css_modules");
}

#[test]
fn single_extension_replaces_the_defaults() {
    let mut rules = resolve(Some(PluginConfig {
        css_suffix: Some(CssSuffixConfig::Single(".styl".to_string())),
        file_suffix: Some("m".to_string()),
    }));
    assert_eq!(rules.css_suffix(), &strings(&[".styl"]));
    assert_eq!(rules.file_suffix(), "m");
    assert_eq!(after(&mut rules, 1, "x.styl"), "x.styl?m");
    assert_eq!(after(&mut rules, 1, "x.css"), "x.css");
}

#[test]
fn list_of_extensions_is_taken_as_it_stands() {
    let rules = resolve(Some(PluginConfig {
        css_suffix: Some(CssSuffixConfig::Multiple(strings(&[".b", "a", ".b", ""]))),
        file_suffix: None,
    }));
    assert_eq!(rules.css_suffix(), &strings(&[".b", "a", ".b", ""]));
    assert_eq!(rules.file_suffix(), "css_modules");
}

#[test]
fn empty_list_of_extensions_matches_nothing() {
    let mut rules = resolve(Some(PluginConfig {
        css_suffix: Some(CssSuffixConfig::Multiple(Vec::new())),
        file_suffix: None,
    }));
    assert_eq!(rules.css_suffix(), &Vec::<String>::new());
    assert_eq!(after(&mut rules, 1, "x.css"), "x.css");
}

#[test]
fn marker_alone_can_be_overridden() {
    let mut rules = resolve(Some(PluginConfig {
        css_suffix: None,
        file_suffix: Some("raw".to_string()),
    }));
    assert_eq!(rules.css_suffix(), &strings(&[".css", ".less", ".scss", ".sass"]));
    assert_eq!(after(&mut rules, 1, "x.less"), "x.less?raw");
}

#[test]
fn extensions_alone_can_be_overridden() {
    let mut rules = resolve(Some(PluginConfig {
        css_suffix: Some(CssSuffixConfig::Multiple(strings(&[".styl", ".pcss"]))),
        file_suffix: None,
    }));
    assert_eq!(after(&mut rules, 1, "x.pcss"), "x.pcss?css_modules");
    assert_eq!(after(&mut rules, 1, "x.sass"), "x.sass");
}

#[test]
fn module_is_rewritten_statement_by_statement() {
    let mut module = Module {
        body: vec![
            Node::Import(import(0, "reset.css")),
            Node::Import(import(1, "a.module.sass")),
            Node::Other(Vec::new()),
            Node::Import(import(3, "react")),
            Node::Import(import(1, "b.less")),
        ],
    };
    let mut rules = resolve(None);
    rules.visit_mut_module(&mut module);
    assert_eq!(
        module,
        Module {
            body: vec![
                Node::Import(import(0, "reset.css")),
                Node::Import(marked(1, "a.module.sass?css_modules")),
                Node::Other(Vec::new()),
                Node::Import(import(3, "react")),
                Node::Import(marked(1, "b.less?css_modules")),
            ],
        }
    );
}

#[test]
fn nested_imports_are_rewritten_once_each() {
    let mut node = Node::Other(vec![
        Node::Other(vec![Node::Import(import(1, "deep.css")), Node::Other(Vec::new())]),
        Node::Import(import(1, "shallow.css")),
        Node::Other(vec![Node::Other(vec![Node::Other(vec![Node::Import(import(2, "x.js"))])])]),
    ]);
    let mut rules = resolve(None);
    rules.visit_mut_node(&mut node);
    assert_eq!(
        node,
        Node::Other(vec![
            Node::Other(vec![
                Node::Import(marked(1, "deep.css?css_modules")),
                Node::Other(Vec::new()),
            ]),
            Node::Import(marked(1, "shallow.css?css_modules")),
            Node::Other(vec![Node::Other(vec![Node::Other(vec![Node::Import(import(
                2, "x.js"
            ))])])]),
        ])
    );
}

#[test]
fn row_of_nodes_keeps_its_order() {
    let mut nodes = vec![Node::Import(import(1, "b.css")), Node::Import(import(1, "a.css"))];
    let mut rules = resolve(None);
    rules.visit_mut_nodes(&mut nodes);
    assert_eq!(
        nodes,
        vec![
            Node::Import(marked(1, "b.css?css_modules")),
            Node::Import(marked(1, "a.css?css_modules")),
        ]
    );
}

#[test]
fn empty_module_stays_empty() {
    let module = process_transform(Module { body: Vec::new() }, None);
    assert_eq!(module, Module { body: Vec::new() });
}

#[test]
fn transform_resolves_and_rewrites() {
    let config = PluginConfig {
        css_suffix: Some(CssSuffixConfig::Single(".styl".to_string())),
        file_suffix: Some("m".to_string()),
    };
    let module = Module {
        body: vec![Node::Import(import(1, "x.styl")), Node::Import(import(1, "x.css"))],
    };
    let module = process_transform(module, Some(config));
    assert_eq!(
        module,
        Module {
            body: vec![Node::Import(marked(1, "x.styl?m")), Node::Import(import(1, "x.css"))],
        }
    );
}

#[test]
fn transform_without_configuration_uses_the_defaults() {
    let module = Module { body: vec![Node::Import(import(1, "x.scss"))] };
    let module = process_transform(module, None);
    assert_eq!(module, Module { body: vec![Node::Import(marked(1, "x.scss?css_modules"))] });
}
