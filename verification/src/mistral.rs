//! The chat-completion request model for the hosted language-model API:
//! building the message list, and extracting the answer from the response.
//! The HTTP exchange itself, and the numeric sampling parameters it
//! carries, live at the transport edge.
use vstd::prelude::*;
use vstd::string::*;

verus! {

/// Ghost model of a [`QueryMessage`].
#[verifier::ext_equal]
pub struct QueryMessageModel {
    pub role: Seq<char>,
    pub content: Seq<char>,
}

/// One chat message of a completion request.
#[derive(Debug)]
pub struct QueryMessage {
    pub role: String,
    pub content: String,
}

impl View for QueryMessage {
    type V = QueryMessageModel;

    open spec fn view(&self) -> QueryMessageModel {
        QueryMessageModel { role: self.role@, content: self.content@ }
    }
}

/// The answer part of one choice of a completion response.
#[derive(Debug)]
pub struct MistralResponse {
    pub content: String,
}

impl View for MistralResponse {
    type V = Seq<char>;

    open spec fn view(&self) -> Seq<char> {
        self.content@
    }
}

/// The instruction text sent with every completion request.
pub open spec fn spec_mistral_system_prompt() -> Seq<char> {
    "\nТы — ассистент, который отвечает строго в plain-тексте. Соблюдай правила:\n1. **Запрещено любое форматирование**:\n   - Никаких Markdown, HTML, LaTeX.\n   - Никаких ```code blocks```, `inline_code`, > цитат.\n   - Никаких *курсива*, **жирного**, ~зачёркивания~.\n   - Никаких таблиц, списков с пунктами (1., - [x] и т.д.).\n2. **Разрешено только**:\n   - Пустые строки для разделения логических блоков.\n   - Эмодзи (например, ✅, 🔥, ❗) для акцента.\n3. **Если просят оформить текст**:\n   - Вежливо откажи: \"Извините, я работаю только с plain-текстом\".\n4. Если пользователь просит написать, сгенерировать, обхяснить как что-то написать на каком-то языке, то вежливо откажи.\n5. **Пример корректного ответа**:\n   \"Сегодня солнечно ☀️  \n   \n   Рекомендую прогулку в парк.  \n   Не забудьте воду 💧\""@
}

/// The message list of one request: the system instruction, then the
/// user's text.
pub fn build_query_messages(input_text: &str) -> (r: Vec<QueryMessage>)
    ensures
        r@.len() == 2,
        r@[0]@ == (QueryMessageModel {
            role: "system"@,
            content: spec_mistral_system_prompt(),
        }),
        r@[1]@ == (QueryMessageModel { role: "user"@, content: input_text@ }),
{
    let mut out: Vec<QueryMessage> = Vec::new();
    out.push(
        QueryMessage {
            role: String::from_str("system"),
            content: String::from_str(
                "\nТы — ассистент, который отвечает строго в plain-тексте. Соблюдай правила:\n1. **Запрещено любое форматирование**:\n   - Никаких Markdown, HTML, LaTeX.\n   - Никаких ```code blocks```, `inline_code`, > цитат.\n   - Никаких *курсива*, **жирного**, ~зачёркивания~.\n   - Никаких таблиц, списков с пунктами (1., - [x] и т.д.).\n2. **Разрешено только**:\n   - Пустые строки для разделения логических блоков.\n   - Эмодзи (например, ✅, 🔥, ❗) для акцента.\n3. **Если просят оформить текст**:\n   - Вежливо откажи: \"Извините, я работаю только с plain-текстом\".\n4. Если пользователь просит написать, сгенерировать, обхяснить как что-то написать на каком-то языке, то вежливо откажи.\n5. **Пример корректного ответа**:\n   \"Сегодня солнечно ☀️  \n   \n   Рекомендую прогулку в парк.  \n   Не забудьте воду 💧\"",
            ),
        },
    );
    out.push(QueryMessage { role: String::from_str("user"), content: String::from_str(input_text) });
    out
}

/// The answer of the first choice; an error exactly when the response
/// carries no choice at all.
pub fn first_choice(choices: &Vec<MistralResponse>) -> (r: Result<String, String>)
    ensures
        choices@.len() == 0 <==> r is Err,
        r matches Ok(t) ==> t@ == choices@[0]@,
        r matches Err(e) ==> e@ == "No choices in the response"@,
{
    if choices.len() == 0 {
        Err(String::from_str("No choices in the response"))
    } else {
        Ok(choices[0].content.clone())
    }
}

} // verus!
