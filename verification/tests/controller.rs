use minerva_lite::controller::cliente::{consulta, lista, remove, Janela, CLIENTE_PAGE_SIZE};
use minerva_lite::erro::Erro;
use minerva_lite::model::cliente::Cliente;

fn cliente(id: i32) -> Cliente {
    Cliente {
        id,
        tipo: 0,
        nome: format!("cliente {}", id),
        pj: id % 2 == 0,
        docto: format!("{:011}", id),
        ativo: true,
        bloqueado: false,
    }
}

#[test]
fn page_size_is_one_hundred() {
    assert_eq!(CLIENTE_PAGE_SIZE, 100);
}

#[test]
fn first_page_starts_after_one_row() {
    assert_eq!(lista(0, 100), Some(Janela { offset: 1, limit: 100 }));
}

#[test]
fn later_pages_start_one_row_late() {
    assert_eq!(lista(1, 100), Some(Janela { offset: 101, limit: 100 }));
    assert_eq!(lista(2, 100), Some(Janela { offset: 201, limit: 100 }));
    assert_eq!(lista(37, 100), Some(Janela { offset: 3701, limit: 100 }));
}

#[test]
fn window_follows_configured_page_size() {
    assert_eq!(lista(0, 7), Some(Janela { offset: 1, limit: 7 }));
    assert_eq!(lista(3, 7), Some(Janela { offset: 22, limit: 7 }));
}

#[test]
fn negative_page_has_no_window() {
    assert_eq!(lista(-1, 100), None);
    assert_eq!(lista(i64::MIN, 100), None);
}

#[test]
fn last_page_whose_offset_fits() {
    let ultima: i64 = (i64::MAX - 1) / 100;
    assert_eq!(ultima, 92233720368547758);
    assert_eq!(lista(ultima, 100), Some(Janela { offset: 9223372036854775801, limit: 100 }));
    assert_eq!(lista(ultima + 1, 100), None);
    assert_eq!(lista(i64::MAX, 100), None);
}

#[test]
fn offset_may_reach_the_largest_number() {
    assert_eq!(lista(i64::MAX - 1, 1), Some(Janela { offset: i64::MAX, limit: 1 }));
    assert_eq!(lista(i64::MAX, 1), None);
}

#[test]
fn huge_page_size_leaves_only_page_zero() {
    assert_eq!(lista(0, i64::MAX), Some(Janela { offset: 1, limit: i64::MAX }));
    assert_eq!(lista(1, i64::MAX), None);
}

#[test]
fn page_size_below_one_has_no_window() {
    assert_eq!(lista(0, 0), None);
    assert_eq!(lista(3, -100), None);
    assert_eq!(lista(0, i64::MIN), None);
}

#[test]
fn window_uses_the_named_page_size() {
    assert_eq!(lista(5, CLIENTE_PAGE_SIZE), Some(Janela { offset: 501, limit: 100 }));
}

#[test]
fn lookup_of_no_row_is_not_found() {
    assert_eq!(consulta(Vec::new()), Err(Erro::NotFound));
}

#[test]
fn lookup_of_one_row_gives_it() {
    assert_eq!(consulta(vec![cliente(12)]), Ok(cliente(12)));
}

#[test]
fn lookup_of_several_rows_gives_the_first() {
    assert_eq!(consulta(vec![cliente(4), cliente(5), cliente(6)]), Ok(cliente(4)));
}

#[test]
fn removal_of_one_row_succeeds() {
    assert_eq!(remove(1), Ok(()));
}

#[test]
fn removal_of_no_row_succeeds_too() {
    assert_eq!(remove(0), Ok(()));
}

#[test]
fn removal_of_many_rows_succeeds() {
    assert_eq!(remove(usize::MAX), Ok(()));
}
